//! The packets and codes of the handshake, as the frame codec hands them over.
use vstd::prelude::*;

verus! {

/// Last will message of a client.
#[derive(Clone, Debug)]
pub struct LastWill {
    pub qos: u8,
    pub retain: bool,
    pub topic: String,
    pub message: Vec<u8>,
}

/// The CONNECT packet: the client's handshake request.
#[derive(Clone, Debug)]
pub struct Connect {
    /// Protocol level announced by the client.
    pub protocol_level: u8,
    /// Whether the client asks for a fresh session.
    pub clean_session: bool,
    /// Requested keep-alive interval in seconds (`0` disables it).
    pub keep_alive: u16,
    pub last_will: Option<LastWill>,
    pub client_id: String,
    pub username: Option<String>,
    pub password: Option<Vec<u8>>,
}

/// The first frame of a connection, as far as the handshake is concerned.
#[derive(Debug)]
pub enum Frame {
    /// A CONNECT packet.
    Connect(Box<Connect>),
    /// Any other packet, by its packet type.
    Other(u8),
}

/// Return code of a CONNACK packet.
#[derive(Clone, Copy, Debug, PartialEq, Eq, Structural)]
pub enum ConnectAckReason {
    ConnectionAccepted,
    IdentifierRejected,
    ServiceUnavailable,
    BadUserNameOrPassword,
    NotAuthorized,
}

} // verus!
