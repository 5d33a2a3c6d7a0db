//! roxy: the lifecycle core of a minimal local HTTP listener.
//!
//! The library models a single server lifecycle run — bind, serve,
//! graceful shutdown, terminate — as a verified state machine, together
//! with the constant request handler and the loopback bind address.
//! The surrounding process (socket I/O, the asynchronous runtime, the
//! interrupt watcher) drives the machine by reporting events and
//! performing the actions it decides.

pub mod handler;
pub mod lifecycle;
