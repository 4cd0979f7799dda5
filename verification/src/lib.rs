//! A structured log publisher for a message bus.
//!
//! A [`Tracer`] holds a shared handle to a transport connection and the one
//! topic it publishes on. [`Tracer::log`] turns a call into the
//! [`Publication`] that the transport is to carry, and
//! [`Publication::conclude`] turns the transport's reply into the outcome of
//! the call. [`Tracer::init`] and [`Tracer::global`] keep the one tracer of a
//! process in a set-once cell.
//!
//! The library performs no I/O of its own: whoever owns the connection sends
//! each publication and hands the reply back.

pub mod level;
pub mod record;
pub mod singleton;
pub mod tracer;

pub use level::LogLevel;
pub use record::LogMessage;
pub use singleton::Misuse;
pub use tracer::{Publication, Tracer, TransportError};
