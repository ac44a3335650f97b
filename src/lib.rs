//! Runtime core of a capability provider: link registry and role resolution,
//! secret resolution for links, command subjects, the command listeners'
//! backpressure discipline, the dispatch loop's decisions and the headers of
//! outgoing invocations.

pub mod connection;
pub mod dispatch;
pub mod errors;
pub mod host_data;
pub mod invocation;
pub mod keys;
pub mod link;
pub mod listener;
pub mod registry;
pub mod secrets;
pub mod subjects;
