//! Decisions of the dispatch loop: the single consumer of the five command
//! queues and of the shutdown signal, which applies one ready input per turn.
use vstd::prelude::*;

use crate::listener::{listener_next, shutdown_handshake, state_after, ListenerEvent, ListenerState, ShutdownStep};

verus! {

/// The five kinds of command that the provider receives.
#[derive(PartialEq, Eq, Structural, Clone, Copy, Debug)]
pub enum CommandKind {
    Health,
    Shutdown,
    LinkPut,
    LinkDel,
    ConfigUpdate,
}

/// One ready input of the dispatch loop.
#[derive(PartialEq, Eq, Structural, Clone, Copy, Debug)]
pub enum LoopInput {
    /// The shared shutdown signal was raised.
    QuitSignal,
    /// A command arrived on its queue.
    Command(CommandKind),
    /// A queue reported that all its senders are gone.
    QueueClosed(CommandKind),
}

/// What the loop does with an input.
#[derive(PartialEq, Eq, Structural, Clone, Copy, Debug)]
pub enum LoopAction {
    /// Flush the bus client and exit.
    FlushAndExit,
    /// Apply the command to the provider, then settle it with `completion`.
    Handle(CommandKind),
    /// Invoke the provider's shutdown, broadcast the shutdown signal, exit.
    FatalShutdown,
}

/// How a handled command is settled once the provider's callback returned.
#[derive(PartialEq, Eq, Structural, Clone, Copy, Debug)]
pub enum Completion {
    /// Signal the command's reply channel and keep serving.
    Acknowledge,
    /// Signal the reply channel, then shut down as after a fatal error.
    AcknowledgeThenFatal,
    /// Shut down as after a fatal error, without a reply.
    Fatal,
}

/// The states of the loop.
#[derive(PartialEq, Eq, Structural, Clone, Copy, Debug)]
pub enum LoopState {
    /// Waiting for the next ready input.
    Running,
    /// A command was taken and its callback has not yet been settled.
    Draining(CommandKind),
    /// The loop has exited.
    Terminated,
}

/// The action for an input taken while running.
pub open spec fn action_for(input: LoopInput) -> LoopAction {
    match input {
        LoopInput::QuitSignal => LoopAction::FlushAndExit,
        LoopInput::Command(kind) => LoopAction::Handle(kind),
        LoopInput::QueueClosed(_) => LoopAction::FatalShutdown,
    }
}

/// How a callback's result settles a command of `kind`: a failed health
/// check is fatal and unanswered, a failed shutdown is answered and then
/// fatal, any other failure is only logged.
pub open spec fn completion_for(kind: CommandKind, callback_ok: bool) -> Completion {
    if callback_ok {
        Completion::Acknowledge
    } else {
        match kind {
            CommandKind::Health => Completion::Fatal,
            CommandKind::Shutdown => Completion::AcknowledgeThenFatal,
            _ => Completion::Acknowledge,
        }
    }
}

/// The state after an action.
pub open spec fn state_after_action(action: LoopAction) -> LoopState {
    match action {
        LoopAction::Handle(kind) => LoopState::Draining(kind),
        _ => LoopState::Terminated,
    }
}

/// The state after a completion.
pub open spec fn state_after_completion(c: Completion) -> LoopState {
    match c {
        Completion::Acknowledge => LoopState::Running,
        _ => LoopState::Terminated,
    }
}

/// Whether an action or a completion invokes the provider's shutdown
/// callback.
pub open spec fn invokes_shutdown(action: LoopAction) -> bool {
    action == LoopAction::FatalShutdown || action == LoopAction::Handle(CommandKind::Shutdown)
}

/// The dispatch loop's state machine.
pub struct Dispatcher {
    state: LoopState,
}

impl Dispatcher {
    pub closed spec fn state(&self) -> LoopState {
        self.state
    }

    /// A loop ready to serve.
    pub fn new() -> (r: Dispatcher)
        ensures
            r.state() == LoopState::Running,
    {
        Dispatcher { state: LoopState::Running }
    }

    /// Whether the loop has exited.
    pub fn is_terminated(&self) -> (r: bool)
        ensures
            r == (self.state() == LoopState::Terminated),
    {
        self.state == LoopState::Terminated
    }

    /// Takes one ready input: the shutdown signal ends the loop after a
    /// flush, a command is handed to the provider, and a closed queue is
    /// fatal. Only a running loop takes inputs.
    pub fn on_input(&mut self, input: LoopInput) -> (r: LoopAction)
        requires
            old(self).state() == LoopState::Running,
        ensures
            r == action_for(input),
            final(self).state() == state_after_action(r),
    {
        let action = match input {
            LoopInput::QuitSignal => LoopAction::FlushAndExit,
            LoopInput::Command(kind) => LoopAction::Handle(kind),
            LoopInput::QueueClosed(_) => LoopAction::FatalShutdown,
        };
        self.state = match action {
            LoopAction::Handle(kind) => LoopState::Draining(kind),
            _ => LoopState::Terminated,
        };
        action
    }

    /// Settles the command being handled, given whether the provider's
    /// callback succeeded.
    pub fn on_callback(&mut self, callback_ok: bool) -> (r: Completion)
        requires
            old(self).state() is Draining,
        ensures
            old(self).state() matches LoopState::Draining(kind) && r == completion_for(kind, callback_ok),
            final(self).state() == state_after_completion(r),
    {
        let kind = match self.state {
            LoopState::Draining(kind) => kind,
            _ => CommandKind::Health,
        };
        let c = if callback_ok {
            Completion::Acknowledge
        } else {
            match kind {
                CommandKind::Health => Completion::Fatal,
                CommandKind::Shutdown => Completion::AcknowledgeThenFatal,
                _ => Completion::Acknowledge,
            }
        };
        self.state = match c {
            Completion::Acknowledge => LoopState::Running,
            _ => LoopState::Terminated,
        };
        c
    }
}

/// Shutdown convergence. A shutdown message addressed to this host makes the
/// shutdown listener signal the dispatch loop once, await its answer,
/// publish the reply, unsubscribe and raise the shutdown signal, in that
/// order. The loop runs the provider's shutdown callback for that command
/// once and answers; the raised signal then ends it. Every other listener
/// stops within two events: the settlement of its command in flight, if
/// any, and the signal.
pub proof fn lemma_shutdown_converges(
    request_host_id: Seq<char>,
    host_id: Seq<char>,
    callback_ok: bool,
    listener: ListenerState,
)
    requires
        request_host_id == host_id,
    ensures
        shutdown_handshake(request_host_id, host_id, true) == seq![
            ShutdownStep::SignalDispatcher,
            ShutdownStep::AwaitAcknowledgment,
            ShutdownStep::PublishReply,
            ShutdownStep::Unsubscribe,
            ShutdownStep::RaiseQuit,
        ],
        action_for(LoopInput::Command(CommandKind::Shutdown)) == LoopAction::Handle(CommandKind::Shutdown),
        invokes_shutdown(action_for(LoopInput::Command(CommandKind::Shutdown))),
        completion_for(CommandKind::Shutdown, callback_ok) != Completion::Fatal,
        callback_ok ==> state_after_completion(completion_for(CommandKind::Shutdown, callback_ok)) == LoopState::Running,
        callback_ok ==> !invokes_shutdown(action_for(LoopInput::QuitSignal)),
        state_after_action(action_for(LoopInput::QuitSignal)) == LoopState::Terminated,
        !callback_ok ==> state_after_completion(completion_for(CommandKind::Shutdown, callback_ok)) == LoopState::Terminated,
        state_after(listener, seq![ListenerEvent::Settled, ListenerEvent::Quit]) == ListenerState::Stopped,
{
    let events = seq![ListenerEvent::Settled, ListenerEvent::Quit];
    let s1 = listener_next(listener, events[0]).0;
    assert(events.drop_first().drop_first().len() == 0);
    assert(events.drop_first()[0] == ListenerEvent::Quit);
    assert(state_after(s1, events.drop_first()) == state_after(listener_next(s1, ListenerEvent::Quit).0, events.drop_first().drop_first()));
}

} // verus!
