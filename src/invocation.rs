//! Routing of remote invocations: the headers that identify an outgoing
//! call's origin and target, the context of an incoming call, and the
//! subject prefix and timeout of a client for one target.
use vstd::prelude::*;

verus! {

/// The header that names the component or provider that made a call.
pub const WRPC_SOURCE_ID_HEADER_NAME: &'static str = "source-id";

/// The header that names the component that a call is for.
pub const WRPC_TARGET_ID_HEADER_NAME: &'static str = "target-id";

/// The source id given to a call whose headers name none.
pub const UNKNOWN_SOURCE: &'static str = "<unknown>";

/// The default timeout of an invocation, in milliseconds.
pub const DEFAULT_TIMEOUT_MS: u64 = 10000;

/// The value of the first header named `name`, if any.
pub open spec fn first_header(headers: Seq<(String, String)>, name: Seq<char>) -> Option<Seq<char>>
    decreases headers.len(),
{
    if headers.len() == 0 {
        None
    } else if headers[0].0@ == name {
        Some(headers[0].1@)
    } else {
        first_header(headers.drop_first(), name)
    }
}

/// The per-call context handed to the provider for an incoming invocation.
pub struct Context {
    /// The component that made the call.
    pub component: Option<String>,
    /// The call's headers, which carry the distributed-trace context.
    pub tracing: Vec<(String, String)>,
}

/// The headers that an outgoing call carries: this provider as its origin,
/// `target` as its destination.
pub fn routing_headers(provider_id: &String, target: &String) -> (r: Vec<(String, String)>)
    ensures
        r@.len() == 2,
        r@[0].0@ == WRPC_SOURCE_ID_HEADER_NAME@,
        r@[0].1@ == provider_id@,
        r@[1].0@ == WRPC_TARGET_ID_HEADER_NAME@,
        r@[1].1@ == target@,
{
    let mut v: Vec<(String, String)> = Vec::new();
    v.push((WRPC_SOURCE_ID_HEADER_NAME.to_owned(), provider_id.clone()));
    v.push((WRPC_TARGET_ID_HEADER_NAME.to_owned(), target.clone()));
    v
}

/// The context of an incoming call: its caller is the value of its first
/// source-id header, or `<unknown>`; its headers are kept for tracing.
pub fn invocation_context(headers: Vec<(String, String)>) -> (r: Context)
    ensures
        r.component matches Some(c) && c@ == (match first_header(headers@, WRPC_SOURCE_ID_HEADER_NAME@) {
            Some(v) => v,
            None => UNKNOWN_SOURCE@,
        }),
        r.tracing@ == headers@,
{
    let name = WRPC_SOURCE_ID_HEADER_NAME.to_owned();
    let mut i: usize = 0;
    assert(headers@.subrange(0, headers@.len() as int) =~= headers@);
    while i < headers.len()
        invariant
            i <= headers@.len(),
            name@ == WRPC_SOURCE_ID_HEADER_NAME@,
            first_header(headers@, WRPC_SOURCE_ID_HEADER_NAME@) == first_header(
                headers@.subrange(i as int, headers@.len() as int),
                WRPC_SOURCE_ID_HEADER_NAME@,
            ),
        decreases headers@.len() - i,
    {
        let ghost rest = headers@.subrange(i as int, headers@.len() as int);
        assert(rest.drop_first() =~= headers@.subrange(i + 1, headers@.len() as int));
        assert(rest[0] == headers@[i as int]);
        if headers[i].0 == name {
            let c = headers[i].1.clone();
            return Context { component: Some(c), tracing: headers };
        }
        i = i + 1;
    }
    assert(headers@.subrange(headers@.len() as int, headers@.len() as int).len() == 0);
    Context { component: Some(UNKNOWN_SOURCE.to_owned()), tracing: headers }
}

/// The subject prefix of a client for `target` in `lattice`:
/// `<lattice>.<target>`.
pub fn rpc_prefix(lattice: &String, target: &String) -> (r: String)
    ensures
        r@ == lattice@ + "."@ + target@,
{
    let mut s = lattice.clone();
    s.append(".");
    s.append(target.as_str());
    s
}

/// The timeout of a client: the one asked for, else ten seconds.
pub fn invocation_timeout_ms(timeout_ms: Option<u64>) -> (r: u64)
    ensures
        r == (match timeout_ms {
            Some(t) => t,
            None => DEFAULT_TIMEOUT_MS,
        }),
{
    match timeout_ms {
        Some(t) => t,
        None => DEFAULT_TIMEOUT_MS,
    }
}

} // verus!
