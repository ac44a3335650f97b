//! The command listeners: each turns the messages of one bus subject into
//! commands, and holds at most one of them undelivered at a time.
use vstd::prelude::*;

verus! {

/// The states of a listener.
#[derive(PartialEq, Eq, Structural, Clone, Copy, Debug)]
pub enum ListenerState {
    /// Waiting for the next bus message or for the shutdown signal.
    Ready,
    /// A command was pushed into the queue and its reply is awaited; no bus
    /// message is taken meanwhile.
    AwaitingReply,
    /// Unsubscribed; the listener's loop has ended.
    Stopped,
}

/// What happens to a listener.
#[derive(PartialEq, Eq, Structural, Clone, Copy, Debug)]
pub enum ListenerEvent {
    /// The shared shutdown signal was raised.
    Quit,
    /// A bus message arrived; `decoded` tells whether its payload had the
    /// expected shape.
    Message { decoded: bool },
    /// The command in flight was settled: replied to, or the queue or the
    /// reply channel failed.
    Settled,
    /// The subscription ended.
    SubscriptionEnded,
}

/// What a listener does.
#[derive(PartialEq, Eq, Structural, Clone, Copy, Debug)]
pub enum ListenerAction {
    /// Unsubscribe and end the loop.
    Unsubscribe,
    /// End the loop.
    Stop,
    /// Push the decoded command with a fresh reply channel, then await it.
    Forward,
    /// Log the undecodable message and go on.
    SkipInvalid,
    /// Take the next bus message.
    Resume,
    /// Leave the event for later: a message waits on the bus until the
    /// command in flight is settled.
    Defer,
    /// Nothing to do: the listener has stopped.
    Ignore,
}

/// The next state and action of a listener.
pub open spec fn listener_next(state: ListenerState, event: ListenerEvent) -> (ListenerState, ListenerAction) {
    match state {
        ListenerState::Stopped => (ListenerState::Stopped, ListenerAction::Ignore),
        ListenerState::Ready => match event {
            ListenerEvent::Quit => (ListenerState::Stopped, ListenerAction::Unsubscribe),
            ListenerEvent::SubscriptionEnded => (ListenerState::Stopped, ListenerAction::Stop),
            ListenerEvent::Message { decoded } => if decoded {
                (ListenerState::AwaitingReply, ListenerAction::Forward)
            } else {
                (ListenerState::Ready, ListenerAction::SkipInvalid)
            },
            ListenerEvent::Settled => (ListenerState::Ready, ListenerAction::Resume),
        },
        ListenerState::AwaitingReply => match event {
            ListenerEvent::Settled => (ListenerState::Ready, ListenerAction::Resume),
            _ => (ListenerState::AwaitingReply, ListenerAction::Defer),
        },
    }
}

/// The number of commands of a listener that are pushed and not yet settled.
pub open spec fn in_flight(state: ListenerState) -> nat {
    if state == ListenerState::AwaitingReply { 1 } else { 0 }
}

/// A listener of one command subject.
pub struct Listener {
    state: ListenerState,
}

impl Listener {
    pub closed spec fn state(&self) -> ListenerState {
        self.state
    }

    /// A listener that has just subscribed.
    pub fn new() -> (r: Listener)
        ensures
            r.state() == ListenerState::Ready,
    {
        Listener { state: ListenerState::Ready }
    }

    /// Takes one event and says what to do.
    pub fn step(&mut self, event: ListenerEvent) -> (r: ListenerAction)
        ensures
            (final(self).state(), r) == listener_next(old(self).state(), event),
            in_flight(final(self).state()) <= 1,
    {
        let (next, action) = match self.state {
            ListenerState::Stopped => (ListenerState::Stopped, ListenerAction::Ignore),
            ListenerState::Ready => match event {
                ListenerEvent::Quit => (ListenerState::Stopped, ListenerAction::Unsubscribe),
                ListenerEvent::SubscriptionEnded => (ListenerState::Stopped, ListenerAction::Stop),
                ListenerEvent::Message { decoded } => if decoded {
                    (ListenerState::AwaitingReply, ListenerAction::Forward)
                } else {
                    (ListenerState::Ready, ListenerAction::SkipInvalid)
                },
                ListenerEvent::Settled => (ListenerState::Ready, ListenerAction::Resume),
            },
            ListenerState::AwaitingReply => match event {
                ListenerEvent::Settled => (ListenerState::Ready, ListenerAction::Resume),
                _ => (ListenerState::AwaitingReply, ListenerAction::Defer),
            },
        };
        self.state = next;
        action
    }
}

/// The number of commands that a sequence of events forwards.
pub open spec fn forwarded(state: ListenerState, events: Seq<ListenerEvent>) -> nat
    decreases events.len(),
{
    if events.len() == 0 {
        0
    } else {
        let (next, action) = listener_next(state, events[0]);
        (if action == ListenerAction::Forward { 1nat } else { 0nat }) + forwarded(next, events.drop_first())
    }
}

/// The number of settlements in a sequence of events.
pub open spec fn settled(events: Seq<ListenerEvent>) -> nat
    decreases events.len(),
{
    if events.len() == 0 {
        0
    } else {
        (if events[0] == ListenerEvent::Settled { 1nat } else { 0nat }) + settled(events.drop_first())
    }
}

/// The state after a sequence of events.
pub open spec fn state_after(state: ListenerState, events: Seq<ListenerEvent>) -> ListenerState
    decreases events.len(),
{
    if events.len() == 0 {
        state
    } else {
        state_after(listener_next(state, events[0]).0, events.drop_first())
    }
}

/// Backpressure: whatever events arrive, a listener never forwards more
/// commands than have been settled, plus the one in flight; so at most one of
/// its commands is ever pushed and not yet settled, and a message that comes
/// while one is in flight is not forwarded until it is settled.
pub proof fn lemma_backpressure(state: ListenerState, events: Seq<ListenerEvent>)
    ensures
        forwarded(state, events) + in_flight(state) <= settled(events) + in_flight(state_after(state, events)),
        in_flight(state_after(state, events)) <= 1,
        state == ListenerState::AwaitingReply ==> forall|d: bool|
            #[trigger] listener_next(state, ListenerEvent::Message { decoded: d }).1 == ListenerAction::Defer,
    decreases events.len(),
{
    if events.len() > 0 {
        lemma_backpressure(listener_next(state, events[0]).0, events.drop_first());
    }
}

/// The shutdown signal stops every listener that has not stopped yet, and
/// a stopped listener stays stopped.
pub proof fn lemma_quit_stops(state: ListenerState, events: Seq<ListenerEvent>)
    ensures
        state == ListenerState::Ready ==> listener_next(state, ListenerEvent::Quit) == (
            ListenerState::Stopped,
            ListenerAction::Unsubscribe,
        ),
        state == ListenerState::Stopped ==> state_after(state, events) == ListenerState::Stopped,
    decreases events.len(),
{
    if events.len() > 0 {
        lemma_quit_stops(listener_next(state, events[0]).0, events.drop_first());
    }
}

/// The steps of the shutdown listener's handshake, in order.
#[derive(PartialEq, Eq, Structural, Clone, Copy, Debug)]
pub enum ShutdownStep {
    /// Push a reply channel into the shutdown queue: the dispatch loop runs
    /// the provider's shutdown callback once and answers on it.
    SignalDispatcher,
    /// Wait for that answer.
    AwaitAcknowledgment,
    /// Publish the acknowledgment to the message's reply address.
    PublishReply,
    /// Unsubscribe from the shutdown subject.
    Unsubscribe,
    /// Raise the shared shutdown signal, which stops the other listeners and
    /// the dispatch loop, and end the shutdown listener.
    RaiseQuit,
}

/// The handshake for a shutdown message addressed to `request_host_id`, on a
/// host whose id is `host_id`; a message for another host, or one with no
/// reply address, is ignored.
pub open spec fn shutdown_handshake(request_host_id: Seq<char>, host_id: Seq<char>, has_reply: bool) -> Seq<ShutdownStep> {
    if has_reply && request_host_id == host_id {
        seq![
            ShutdownStep::SignalDispatcher,
            ShutdownStep::AwaitAcknowledgment,
            ShutdownStep::PublishReply,
            ShutdownStep::Unsubscribe,
            ShutdownStep::RaiseQuit,
        ]
    } else {
        seq![]
    }
}

/// The steps that the shutdown listener takes for one message.
pub fn shutdown_steps(request_host_id: &String, host_id: &String, has_reply: bool) -> (r: Vec<ShutdownStep>)
    ensures
        r@ == shutdown_handshake(request_host_id@, host_id@, has_reply),
{
    if has_reply && *request_host_id == *host_id {
        let mut v: Vec<ShutdownStep> = Vec::new();
        v.push(ShutdownStep::SignalDispatcher);
        v.push(ShutdownStep::AwaitAcknowledgment);
        v.push(ShutdownStep::PublishReply);
        v.push(ShutdownStep::Unsubscribe);
        v.push(ShutdownStep::RaiseQuit);
        assert(v@ =~= shutdown_handshake(request_host_id@, host_id@, has_reply));
        v
    } else {
        let v: Vec<ShutdownStep> = Vec::new();
        assert(v@ =~= shutdown_handshake(request_host_id@, host_id@, has_reply));
        v
    }
}

} // verus!
