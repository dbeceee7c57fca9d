//! Client core for a line-delimited JSON remote control protocol: a broker that
//! hands each inbound message to exactly one waiting consumer, the envelope that
//! tells responses from events, and the request bookkeeping of a connection.
pub mod error;
pub mod ipc;
pub mod messages;
pub mod pending;
mod sync;

pub use error::Error;
pub use ipc::{Arg, Client, Event, Frame, Request, Response, ServerMessage};
pub use messages::Messages;
