//! A programmable HTTP test double, reduced to the part that can be reasoned
//! about: the records that travel between a listener worker and the handle
//! that owns it, the rules by which scripted directives become a response,
//! and the life cycle of the worker.
//!
//! The listener itself (sockets, threads, the HTTP server) is not part of this
//! crate. It drives the pieces here: it feeds [`WorkerState::step`] with what
//! happens to it, calls a [`Handler`] for each inbound request, and hands the
//! address it bound to [`Handle::start`].

pub mod channel;
pub mod laws;
pub mod lifecycle;
pub mod query;
pub mod reply;
pub mod requests;
pub mod server;

pub use crate::channel::ChannelError;
pub use crate::lifecycle::{WorkerAction, WorkerEvent, WorkerState};
pub use crate::query::Query;
pub use crate::reply::{wire_status, Directive, ReplyBuilder, Response};
pub use crate::requests::{none_waiting, Request, RequestReceiver, ShareRequest};
pub use crate::server::{
    bind_target, startup_report, BoundAddress, Handle, Handler, StartupFailure, Teardown,
};
