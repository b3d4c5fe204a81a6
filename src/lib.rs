//! Connection-acceptance front end of an MQTT server: handshake negotiation
//! and selection of the server variant that claims a new connection.

pub mod codec;
pub mod time;
pub mod shared;
pub mod handshake;
pub mod selector;
