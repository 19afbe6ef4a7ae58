//! An in-process typed command bus: a byte codec for request and response
//! values, a registry of handlers keyed by command identifiers, a dispatcher
//! that records every delivery, and workflow helpers built on top of it.

pub mod codec;
pub mod message;
pub mod entities;
pub mod error;
pub mod command;
pub mod envelope;
pub mod dispatch;
pub mod ident;
pub mod client;
