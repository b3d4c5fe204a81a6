//! Handshake negotiation: the claiming server decides the CONNACK.
use std::rc::Rc;

use ntex::time::Seconds;
use vstd::prelude::*;

use crate::codec::{Connect, ConnectAckReason};
use crate::shared::{MqttShared, MqttSink};

verus! {

/// Keep-alive sent with every rejection, and granted to a client that asked for none.
pub const DEFAULT_KEEPALIVE: u16 = 30;

/// Keep-alive the server grants for a requested interval `k` (in seconds):
/// half as much again as asked, saturated at the largest `u16`.
pub open spec fn negotiated_keep_alive(k: u16) -> u16 {
    if k == 0 {
        DEFAULT_KEEPALIVE
    } else if k + k / 2 > u16::MAX {
        u16::MAX
    } else {
        (k + k / 2) as u16
    }
}

/// Connect message
#[derive(Debug)]
pub struct Handshake<Io> {
    pub io: Io,
    pub pkt: Box<Connect>,
    pub shared: Rc<MqttShared>,
}

/// Ack connect message
#[derive(Debug)]
pub struct HandshakeAck<Io, St> {
    pub io: Io,
    pub session: Option<St>,
    pub session_present: bool,
    pub return_code: ConnectAckReason,
    pub shared: Rc<MqttShared>,
    pub keepalive: Seconds,
}

impl<Io, St> HandshakeAck<Io, St> {
    /// The acknowledgement with every field of `self` but the idle time-out.
    pub open spec fn with_keepalive(self, timeout: Seconds) -> Self {
        HandshakeAck { keepalive: timeout, ..self }
    }

    /// A rejection with return code `code`: no session, fixed keep-alive.
    pub open spec fn is_rejection(self, code: ConnectAckReason) -> bool {
        &&& self.return_code == code
        &&& self.session is None
        &&& !self.session_present
        &&& self.keepalive.0 == DEFAULT_KEEPALIVE
    }

    /// Set idle time-out for the connection in seconds
    ///
    /// By default idle time-out is set to 30 seconds.
    pub fn idle_timeout(self, timeout: Seconds) -> (r: Self)
        ensures
            r == self.with_keepalive(timeout),
    {
        let mut this = self;
        this.keepalive = timeout;
        this
    }
}

impl<Io> Handshake<Io> {
    pub fn new(pkt: Box<Connect>, io: Io, shared: Rc<MqttShared>) -> (r: Self)
        ensures
            r.pkt == pkt,
            r.io == io,
            r.shared == shared,
    {
        Handshake { io, pkt, shared }
    }

    pub fn packet(&self) -> (r: &Connect)
        ensures
            *r == *self.pkt,
    {
        &self.pkt
    }

    pub fn packet_mut(&mut self) -> (r: &mut Connect)
        ensures
            *r == *old(self).pkt,
            final(self).pkt == *final(r),
            final(self).io == old(self).io,
            final(self).shared == old(self).shared,
    {
        &mut self.pkt
    }

    pub fn io(&self) -> (r: &Io)
        ensures
            *r == self.io,
    {
        &self.io
    }

    /// Returns mqtt server sink
    pub fn sink(&self) -> (r: MqttSink)
        ensures
            r.shared == self.shared,
    {
        MqttSink::new(self.shared.clone())
    }

    /// The acknowledgement of a rejection with return code `code`.
    fn reject<St>(self, code: ConnectAckReason) -> (r: HandshakeAck<Io, St>)
        ensures
            r.is_rejection(code),
            r.io == self.io,
            r.shared == self.shared,
    {
        HandshakeAck {
            io: self.io,
            shared: self.shared,
            session: None,
            session_present: false,
            keepalive: Seconds(DEFAULT_KEEPALIVE),
            return_code: code,
        }
    }

    /// Ack handshake message and set state
    pub fn ack<St>(self, st: St, session_present: bool) -> (r: HandshakeAck<Io, St>)
        ensures
            r.return_code == ConnectAckReason::ConnectionAccepted,
            r.session == Some(st),
            r.session_present == session_present,
            r.keepalive.0 == negotiated_keep_alive(self.pkt.keep_alive),
            r.io == self.io,
            r.shared == self.shared,
    {
        let Handshake { io, shared, pkt } = self;
        let k = pkt.keep_alive;
        let keepalive = if k != 0 {
            (k / 2).checked_add(k).unwrap_or(u16::MAX)
        } else {
            DEFAULT_KEEPALIVE
        };
        HandshakeAck {
            io,
            shared,
            session_present,
            session: Some(st),
            keepalive: Seconds(keepalive),
            return_code: ConnectAckReason::ConnectionAccepted,
        }
    }

    /// Create connect ack object with `identifier rejected` return code
    pub fn identifier_rejected<St>(self) -> (r: HandshakeAck<Io, St>)
        ensures
            r.is_rejection(ConnectAckReason::IdentifierRejected),
            r.io == self.io,
            r.shared == self.shared,
    {
        self.reject(ConnectAckReason::IdentifierRejected)
    }

    /// Create connect ack object with `bad user name or password` return code
    pub fn bad_username_or_pwd<St>(self) -> (r: HandshakeAck<Io, St>)
        ensures
            r.is_rejection(ConnectAckReason::BadUserNameOrPassword),
            r.io == self.io,
            r.shared == self.shared,
    {
        self.reject(ConnectAckReason::BadUserNameOrPassword)
    }

    /// Create connect ack object with `not authorized` return code
    pub fn not_authorized<St>(self) -> (r: HandshakeAck<Io, St>)
        ensures
            r.is_rejection(ConnectAckReason::NotAuthorized),
            r.io == self.io,
            r.shared == self.shared,
    {
        self.reject(ConnectAckReason::NotAuthorized)
    }

    /// Create connect ack object with `service unavailable` return code
    pub fn service_unavailable<St>(self) -> (r: HandshakeAck<Io, St>)
        ensures
            r.is_rejection(ConnectAckReason::ServiceUnavailable),
            r.io == self.io,
            r.shared == self.shared,
    {
        self.reject(ConnectAckReason::ServiceUnavailable)
    }
}


/// Overriding the idle time-out of an acknowledgement changes the keep-alive and
/// nothing else: return code, session and session-present flag stay as they were.
pub proof fn lemma_override_keeps_outcome<Io, St>(ack: HandshakeAck<Io, St>, timeout: Seconds)
    ensures
        ack.with_keepalive(timeout).keepalive == timeout,
        ack.with_keepalive(timeout).return_code == ack.return_code,
        ack.with_keepalive(timeout).session == ack.session,
        ack.with_keepalive(timeout).session_present == ack.session_present,
        ack.with_keepalive(timeout).io == ack.io,
        ack.with_keepalive(timeout).shared == ack.shared,
{
}

/// The keep-alive granted is the requested one padded by half, saturated at the
/// largest `u16`; a client that asks for none gets the default.
pub proof fn lemma_keep_alive_bounds(k: u16)
    ensures
        k == 0 ==> negotiated_keep_alive(k) == DEFAULT_KEEPALIVE,
        k != 0 ==> negotiated_keep_alive(k) >= k,
        k != 0 ==> negotiated_keep_alive(k) == vstd::math::min(u16::MAX as int, k + k / 2),
{
}

} // verus!
