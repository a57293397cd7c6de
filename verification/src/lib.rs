//! A fixed-size worker thread pool with a closable work channel, plus the
//! request-routing and response-formatting rules of a small static-file
//! HTTP server built on that pool.
//!
//! The pool core is modelled as a state machine over job tickets: the
//! channel carries tickets from submitters to workers, each worker runs a
//! pop-execute loop, and shutdown closes the channel and then joins every
//! worker in creation order. The surrounding process — OS threads, sockets,
//! signal handling, configuration parsing — lives outside this crate and
//! drives these transitions.

pub mod channel;
pub mod decimal;
pub mod http;
pub mod pool;

pub use crate::pool::ThreadPool;
