//! State shared by everything that touches one connection.
use std::rc::Rc;

use ntex::channel::pool::Pool;
use vstd::prelude::*;

verus! {

/// Window of outbound messages that may await acknowledgement on a new connection.
pub const DEFAULT_INFLIGHT: usize = 16;

/// ntex's pool of one-shot channels; carried through, never looked into.
#[verifier::external_type_specification]
#[verifier::external_body]
#[verifier::reject_recursive_types(T)]
pub struct ExPool<T>(Pool<T>);

/// Relies on `ntex::channel::pool::new`: it creates an empty pool and cannot fail.
pub assume_specification<T>[ ntex::channel::pool::new::<T> ]() -> Pool<T>;

/// Process-wide backpressure pool of the outbound sinks, created once at startup.
///
/// A sink that finds its connection's send window full parks on a one-shot channel
/// taken from `waiters`. The handshake front end only hands a reference to it on to
/// each connection.
#[derive(Debug)]
pub struct MqttSinkPool {
    pub waiters: Pool<()>,
}

impl MqttSinkPool {
    pub fn new() -> (r: MqttSinkPool) {
        MqttSinkPool { waiters: ntex::channel::pool::new() }
    }
}

/// Per-connection state: codec configuration, receive window and sink pool.
#[derive(Debug)]
pub struct MqttShared {
    /// Largest inbound frame accepted, in bytes (`0` means unlimited).
    pub max_size: u32,
    /// Receive window: how many messages may be in flight at once.
    pub inflight: usize,
    pub pool: Rc<MqttSinkPool>,
}

impl MqttShared {
    pub fn new(max_size: u32, inflight: usize, pool: Rc<MqttSinkPool>) -> (r: MqttShared)
        ensures
            r.max_size == max_size,
            r.inflight == inflight,
            r.pool == pool,
    {
        MqttShared { max_size, inflight, pool }
    }
}

/// Outbound message handle bound to the state of one connection.
#[derive(Debug)]
pub struct MqttSink {
    pub shared: Rc<MqttShared>,
}

impl MqttSink {
    pub fn new(shared: Rc<MqttShared>) -> (r: MqttSink)
        ensures
            r.shared == shared,
    {
        MqttSink { shared }
    }
}

} // verus!
