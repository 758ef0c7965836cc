//! A bridge between the WebDriver remote automation API and the browser's
//! own Marionette protocol: capability negotiation, the length-prefixed
//! wire framing and handshake, the command and reply tables, and the
//! decisions of the session lifecycle.
use vstd::prelude::*;

pub mod capabilities;
pub mod command;
pub mod connection;
pub mod error;
pub mod extension;
pub mod handler;
pub mod json;
pub mod message;
pub mod request;
pub mod response;
pub mod session;
pub mod text;
pub mod wire;

verus! {

} // verus!
