//! Server-side session state: a keyed session store, and a channel of
//! one-shot messages layered on the records of its sessions.
//!
//! - `record`: the record of one session, field names bound to serialized
//!   values.
//! - `store`: what a session store does, and a store that keeps its sessions
//!   in memory.
//! - `keygen`: session keys.
//! - `codec`: texts as JSON documents and back.
//! - `session`: the handle that one request has on one session.
//! - `once_session`: the one-shot message and errors of a session, flushed
//!   into a snapshot once per request and forwarded over a redirect on
//!   demand, and the addresses of the last two requests.
//! - `sessions`: a store of bare records that requests take out whole.
//! - `middleware`: what is decided on the way into a handler and on the way
//!   out of it.
//! - `laws`: what holds of the operations taken together.
//!
//! The library does no input or output and starts no threads. Sharing a store
//! between the workers of a server, and moving keys and snapshots in and out
//! of requests, is left to the program that uses it.

pub mod codec;
pub mod keygen;
pub mod laws;
pub mod middleware;
pub mod once_session;
pub mod record;
pub mod session;
pub mod sessions;
pub mod store;
pub mod ttl;
