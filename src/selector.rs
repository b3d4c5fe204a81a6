//! Selection of the server variant that claims a freshly accepted connection.
use std::rc::Rc;

use ntex::time::Seconds;
use vstd::prelude::*;

use crate::codec::{Connect, Frame};
use crate::shared::{MqttShared, MqttSinkPool, DEFAULT_INFLIGHT};

verus! {

/// Why reading the first frame failed.
#[derive(Clone, Copy, Debug, PartialEq, Eq, Structural)]
pub enum ReadError {
    /// The transport failed.
    Io,
    /// The bytes received do not decode as a frame.
    Decode,
}

/// Fatal outcome of a handshake; the connection closes without a CONNACK.
#[derive(Debug)]
pub enum MqttError<E> {
    /// A server variant failed.
    Service(E),
    /// The transport failed.
    Io,
    /// The first frame could not be decoded.
    Decode,
    /// The first frame is not a CONNECT packet; it holds the packet type received.
    Unexpected(u8),
    /// The peer closed the connection before sending a frame.
    Disconnected,
    /// The handshake did not complete in time.
    HandshakeTimeout,
    /// Every server variant declined the connection.
    NoCandidateAccepted,
}

/// What a server variant answers when offered a connection.
#[derive(Debug)]
pub enum Reply<T> {
    /// The variant declined and hands the connection back unchanged.
    Declined(T),
    /// The variant took the connection over.
    Claimed,
}

/// Where the trial of the server variants stands.
#[derive(Clone, Copy, Debug, PartialEq, Eq, Structural)]
pub enum Phase {
    /// Waiting for the first frame of the connection.
    AwaitFirstFrame,
    /// The first frame is a CONNECT packet; no variant has been offered the connection yet.
    TypeChecked,
    /// The connection is offered to the variant at this index.
    Offered(usize),
    /// The variant at this index claimed the connection.
    Claimed(usize),
    /// The handshake failed.
    Failed,
}

/// What the driver of a connection does next.
#[derive(Debug)]
pub enum Step<T, E> {
    /// Offer the connection to the variant at `index`.
    Offer { index: usize, item: T },
    /// A variant claimed the connection: the handshake is over.
    Claimed,
    /// Close the connection.
    Fail(MqttError<E>),
}

impl Phase {
    pub open spec fn is_terminal(self) -> bool {
        self is Claimed || self is Failed
    }
}

/// The result of reading the first frame of a connection, as a handshake outcome.
pub open spec fn first_frame_spec<E>(read: Result<Option<Frame>, ReadError>) -> Result<Box<Connect>, MqttError<E>> {
    match read {
        Err(ReadError::Io) => Err(MqttError::Io),
        Err(ReadError::Decode) => Err(MqttError::Decode),
        Ok(None) => Err(MqttError::Disconnected),
        Ok(Some(Frame::Connect(c))) => Ok(c),
        Ok(Some(Frame::Other(t))) => Err(MqttError::Unexpected(t)),
    }
}

/// Checks the first frame of a connection: it must be a CONNECT packet.
pub fn first_frame<E>(read: Result<Option<Frame>, ReadError>) -> (r: Result<Box<Connect>, MqttError<E>>)
    ensures
        r == first_frame_spec::<E>(read),
{
    match read {
        Err(ReadError::Io) => Err(MqttError::Io),
        Err(ReadError::Decode) => Err(MqttError::Decode),
        Ok(None) => Err(MqttError::Disconnected),
        Ok(Some(Frame::Connect(c))) => Ok(c),
        Ok(Some(Frame::Other(t))) => Err(MqttError::Unexpected(t)),
    }
}

/// Phase that follows `phase` when the variant on offer claims (`claimed`) or declines,
/// out of `n` variants.
pub open spec fn after_reply(phase: Phase, n: usize, claimed: bool) -> Phase {
    match phase {
        Phase::Offered(i) => if claimed {
            Phase::Claimed(i)
        } else if i + 1 < n {
            Phase::Offered((i + 1) as usize)
        } else {
            Phase::Failed
        },
        _ => phase,
    }
}

/// Phase reached from `phase` when the variants on offer give, in turn, the `replies`
/// (`true`: claimed) and no variant fails.
pub open spec fn run(phase: Phase, n: usize, replies: Seq<bool>) -> Phase
    decreases replies.len(),
{
    if replies.len() == 0 || !(phase is Offered) {
        phase
    } else {
        run(after_reply(phase, n, replies[0]), n, replies.drop_first())
    }
}

/// Trial of the server variants on one connection, strictly in registration order.
#[derive(Debug)]
pub struct Selection {
    pub phase: Phase,
    /// Number of server variants.
    pub candidates: usize,
}

impl Selection {
    pub open spec fn wf(self) -> bool {
        self.phase matches Phase::Offered(i) ==> i < self.candidates
    }

    /// A trial of `candidates` variants, waiting for the first frame.
    pub fn new(candidates: usize) -> (r: Selection)
        ensures
            r.wf(),
            r.candidates == candidates,
            r.phase == Phase::AwaitFirstFrame,
    {
        Selection { phase: Phase::AwaitFirstFrame, candidates }
    }

    /// Takes the outcome of reading the first frame; only a CONNECT packet lets the
    /// trial go on.
    pub fn on_frame<E>(&mut self, read: Result<Option<Frame>, ReadError>) -> (r: Result<Box<Connect>, MqttError<E>>)
        requires
            old(self).phase == Phase::AwaitFirstFrame,
        ensures
            final(self).wf(),
            final(self).candidates == old(self).candidates,
            r == first_frame_spec::<E>(read),
            final(self).phase == (if r is Ok { Phase::TypeChecked } else { Phase::Failed }),
    {
        let r = first_frame(read);
        self.phase = if r.is_ok() { Phase::TypeChecked } else { Phase::Failed };
        r
    }

    /// Offers the connection `item` to the first variant.
    pub fn begin<T, E>(&mut self, item: T) -> (r: Step<T, E>)
        requires
            old(self).phase == Phase::TypeChecked,
        ensures
            final(self).wf(),
            final(self).candidates == old(self).candidates,
            old(self).candidates > 0 ==> final(self).phase == Phase::Offered(0) && r == (Step::<T, E>::Offer { index: 0, item }),
            old(self).candidates == 0 ==> final(self).phase == Phase::Failed && r == Step::<T, E>::Fail(MqttError::NoCandidateAccepted),
    {
        if self.candidates > 0 {
            self.phase = Phase::Offered(0);
            Step::Offer { index: 0, item }
        } else {
            self.phase = Phase::Failed;
            Step::Fail(MqttError::NoCandidateAccepted)
        }
    }

    /// Takes the answer of the variant on offer and decides what comes next.
    pub fn on_reply<T, E>(&mut self, reply: Result<Reply<T>, E>) -> (r: Step<T, E>)
        requires
            old(self).wf(),
            old(self).phase is Offered,
        ensures
            final(self).wf(),
            final(self).candidates == old(self).candidates,
            match reply {
                Err(e) => final(self).phase == Phase::Failed && r == Step::<T, E>::Fail(MqttError::Service(e)),
                Ok(Reply::Claimed) => final(self).phase == after_reply(old(self).phase, old(self).candidates, true)
                    && r == Step::<T, E>::Claimed,
                Ok(Reply::Declined(item)) => final(self).phase == after_reply(old(self).phase, old(self).candidates, false)
                    && r == match final(self).phase {
                        Phase::Offered(j) => Step::<T, E>::Offer { index: j, item },
                        _ => Step::<T, E>::Fail(MqttError::NoCandidateAccepted),
                    },
            },
    {
        let i = match self.phase {
            Phase::Offered(i) => i,
            _ => 0,
        };
        match reply {
            Err(e) => {
                self.phase = Phase::Failed;
                Step::Fail(MqttError::Service(e))
            },
            Ok(Reply::Claimed) => {
                self.phase = Phase::Claimed(i);
                Step::Claimed
            },
            Ok(Reply::Declined(item)) => {
                if i + 1 < self.candidates {
                    self.phase = Phase::Offered(i + 1);
                    Step::Offer { index: i + 1, item }
                } else {
                    self.phase = Phase::Failed;
                    Step::Fail(MqttError::NoCandidateAccepted)
                }
            },
        }
    }

    /// The handshake deadline passed: whatever step is pending is abandoned.
    pub fn on_timeout<T, E>(&mut self) -> (r: Step<T, E>)
        requires
            old(self).wf(),
            !old(self).phase.is_terminal(),
        ensures
            final(self).wf(),
            final(self).candidates == old(self).candidates,
            final(self).phase == Phase::Failed,
            r == Step::<T, E>::Fail(MqttError::HandshakeTimeout),
    {
        self.phase = Phase::Failed;
        Step::Fail(MqttError::HandshakeTimeout)
    }
}


/// Whether every one of `states` is ready (or done shutting down).
pub open spec fn all_ready_spec(states: Seq<bool>) -> bool {
    forall|i: int| 0 <= i < states.len() ==> states[i]
}

/// Readiness of the selector from that of each variant: ready only when all are.
/// Every state is looked at, so that a slow variant is never masked by a fast one.
pub fn all_ready(states: &Vec<bool>) -> (r: bool)
    ensures
        r == all_ready_spec(states@),
{
    let mut ready = true;
    let mut i: usize = 0;
    while i < states.len()
        invariant
            i <= states.len(),
            ready == all_ready_spec(states@.take(i as int)),
        decreases states.len() - i,
    {
        proof {
            let before = states@.take(i as int);
            let after = states@.take(i as int + 1);
            assert(after == before.push(states@[i as int]));
            if all_ready_spec(after) {
                assert(after[i as int] == states@[i as int]);
                assert forall|j: int| 0 <= j < before.len() implies before[j] by {
                    assert(after[j] == before[j]);
                }
            }
        }
        let this_ready = states[i];
        ready = ready && this_ready;
        i += 1;
    }
    assert(states@.take(states.len() as int) == states@);
    ready
}

/// Mqtt server selector
///
/// Selector allows to choose different mqtt server impls depends on
/// connect packet.
#[derive(Debug)]
pub struct Selector<F> {
    /// The server variants, in registration order.
    pub servers: Vec<F>,
    pub max_size: u32,
    /// Handshake time-out in seconds (`0`: none).
    pub handshake_timeout: u16,
    pub pool: Rc<MqttSinkPool>,
}

impl<F> Selector<F> {
    pub fn new() -> (r: Self)
        ensures
            r.servers@.len() == 0,
            r.max_size == 0,
            r.handshake_timeout == 0,
    {
        Selector { servers: Vec::new(), max_size: 0, handshake_timeout: 0, pool: Rc::new(MqttSinkPool::new()) }
    }

    /// Set handshake timeout in seconds.
    ///
    /// Handshake includes `connect` packet and response `connect-ack`.
    /// By default handshake timeout is disabled.
    pub fn handshake_timeout(self, timeout: u16) -> (r: Self)
        ensures
            r == (Selector { handshake_timeout: timeout, ..self }),
    {
        let mut this = self;
        this.handshake_timeout = timeout;
        this
    }

    /// Set max inbound frame size.
    ///
    /// If max size is set to `0`, size is unlimited.
    /// By default max size is set to `0`
    pub fn max_size(self, size: u32) -> (r: Self)
        ensures
            r == (Selector { max_size: size, ..self }),
    {
        let mut this = self;
        this.max_size = size;
        this
    }

    /// Add server variant; it is tried after those added before it.
    pub fn variant(self, server: F) -> (r: Self)
        ensures
            r.servers@ == self.servers@.push(server),
            r.max_size == self.max_size,
            r.handshake_timeout == self.handshake_timeout,
            r.pool == self.pool,
    {
        let mut this = self;
        this.servers.push(server);
        this
    }

    /// The selector service over the started `servers`, one for each variant, in order.
    pub fn new_service<S>(&self, servers: Vec<S>) -> (r: SelectorService<S>)
        ensures
            *r.servers == servers,
            r.max_size == self.max_size,
            r.handshake_timeout == self.handshake_timeout,
            r.pool == self.pool,
    {
        SelectorService {
            servers: Rc::new(servers),
            max_size: self.max_size,
            handshake_timeout: self.handshake_timeout,
            pool: self.pool.clone(),
        }
    }
}

/// The started selector: offers each new connection to its servers in turn.
#[derive(Debug)]
pub struct SelectorService<S> {
    pub servers: Rc<Vec<S>>,
    pub max_size: u32,
    pub handshake_timeout: u16,
    pub pool: Rc<MqttSinkPool>,
}

impl<S> SelectorService<S> {
    /// Fresh state for a newly accepted connection.
    pub fn connection_state(&self) -> (r: Rc<MqttShared>)
        ensures
            r.max_size == self.max_size,
            r.inflight == DEFAULT_INFLIGHT,
            r.pool == self.pool,
    {
        Rc::new(MqttShared::new(self.max_size, DEFAULT_INFLIGHT, self.pool.clone()))
    }

    /// How long the whole handshake of a connection may take.
    pub fn handshake_deadline(&self) -> (r: Option<Seconds>)
        ensures
            r == (if self.handshake_timeout > 0 { Some(Seconds(self.handshake_timeout)) } else { None::<Seconds> }),
    {
        if self.handshake_timeout > 0 {
            Some(Seconds(self.handshake_timeout))
        } else {
            None
        }
    }

    /// The trial of this service's servers for a new connection.
    pub fn selection(&self) -> (r: Selection)
        ensures
            r.wf(),
            r.phase == Phase::AwaitFirstFrame,
            r.candidates == self.servers@.len(),
    {
        Selection::new(self.servers.len())
    }
}


/// Feeding two runs of replies one after the other is feeding their concatenation.
pub proof fn lemma_run_concat(phase: Phase, n: usize, a: Seq<bool>, b: Seq<bool>)
    ensures
        run(phase, n, a + b) == run(run(phase, n, a), n, b),
    decreases a.len(),
{
    if a.len() == 0 {
        assert(a + b == b);
    } else if phase is Offered {
        assert((a + b).drop_first() == a.drop_first() + b);
        lemma_run_concat(after_reply(phase, n, a[0]), n, a.drop_first(), b);
    } else {
        lemma_run_stays(phase, n, b);
    }
}

/// Once claimed or failed, the trial stays where it is, whatever replies follow.
pub proof fn lemma_run_stays(phase: Phase, n: usize, replies: Seq<bool>)
    requires
        !(phase is Offered),
    ensures
        run(phase, n, replies) == phase,
{
}

/// Declines move the offer on by one variant each.
pub proof fn lemma_run_declines(i: nat, n: usize, replies: Seq<bool>)
    requires
        i + replies.len() < n,
        forall|j: int| 0 <= j < replies.len() ==> !replies[j],
    ensures
        run(Phase::Offered(i as usize), n, replies) == Phase::Offered((i + replies.len()) as usize),
    decreases replies.len(),
{
    if replies.len() > 0 {
        lemma_run_declines(i + 1, n, replies.drop_first());
    }
}

/// The first variant that claims a connection keeps it: the variants before it are each
/// offered the connection once, in registration order, and none after it is offered it.
pub proof fn lemma_first_claim_wins(n: usize, replies: Seq<bool>, k: nat)
    requires
        k < n,
        k < replies.len(),
        replies[k as int],
        forall|j: int| 0 <= j < k ==> !replies[j],
    ensures
        forall|m: nat| m <= k ==> run(Phase::Offered(0), n, #[trigger] replies.take(m as int)) == Phase::Offered(m as usize),
        forall|m: nat| k < m <= replies.len() ==> run(Phase::Offered(0), n, #[trigger] replies.take(m as int)) == Phase::Claimed(k as usize),
{
    assert forall|m: nat| m <= k implies run(Phase::Offered(0), n, #[trigger] replies.take(m as int)) == Phase::Offered(m as usize) by {
        lemma_run_declines(0, n, replies.take(m as int));
    }
    assert forall|m: nat| k < m <= replies.len() implies run(Phase::Offered(0), n, #[trigger] replies.take(m as int)) == Phase::Claimed(k as usize) by {
        let head = replies.take(k as int);
        let tail = replies.take(m as int).skip(k as int);
        assert(replies.take(m as int) == head + tail);
        lemma_run_concat(Phase::Offered(0), n, head, tail);
        lemma_run_declines(0, n, head);
        assert(tail[0] == replies[k as int]);
        lemma_run_stays(Phase::Claimed(k as usize), n, tail.drop_first());
    }
}

/// When every one of `n` variants declines, the trial fails.
pub proof fn lemma_all_decline(n: usize, replies: Seq<bool>)
    requires
        n > 0,
        replies.len() == n,
        forall|j: int| 0 <= j < n ==> !replies[j],
    ensures
        run(Phase::Offered(0), n, replies) == Phase::Failed,
{
    let head = replies.take(n - 1);
    let tail = replies.skip(n - 1);
    assert(replies == head + tail);
    lemma_run_concat(Phase::Offered(0), n, head, tail);
    assert forall|j: int| 0 <= j < head.len() implies !head[j] by {
        assert(head[j] == replies[j]);
    }
    lemma_run_declines(0, n, head);
    assert(tail[0] == replies[n - 1]);
    assert(tail.drop_first().len() == 0);
    assert(after_reply(Phase::Offered((n - 1) as usize), n, false) == Phase::Failed);
    assert(run(Phase::Failed, n, tail.drop_first()) == Phase::Failed);
}

/// One variant that is not ready keeps the whole selector from being ready.
pub proof fn lemma_pending_variant_blocks(states: Seq<bool>, i: int)
    requires
        0 <= i < states.len(),
        !states[i],
    ensures
        !all_ready_spec(states),
{
}

} // verus!
