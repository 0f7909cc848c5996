//! The forwarding engine: once the tunnel is established, bytes are relayed
//! in both directions until either side reaches end of stream or an I/O
//! failure occurs, at which point the whole relay ends.
//!
//! The engine is pure data transformation: the caller performs the actual
//! socket reads and writes and reports their results as events, and the
//! engine owns the per-direction pending queues, decides what to write next,
//! and accounts for short writes. Bytes reach each destination in exactly
//! the order its source produced them, however they were chunked.

use std::collections::VecDeque;
use vstd::prelude::*;
use vstd::seq_lib::lemma_flatten_concat;

verus! {

/// Splitting off the front chunk of a non-empty chunk sequence splits its
/// flat byte content the same way.
proof fn lemma_flatten_decompose(chunks: Seq<Seq<u8>>)
    requires
        chunks.len() > 0,
    ensures
        chunks.flatten() == chunks[0] + chunks.drop_first().flatten(),
{
    assert(chunks =~= seq![chunks[0]] + chunks.drop_first());
    lemma_flatten_concat(seq![chunks[0]], chunks.drop_first());
    seq![chunks[0]].lemma_flatten_one_element();
}

/// An ordered queue of byte chunks awaiting delivery to a destination.
/// Byte order is preserved; after a short write only the unwritten suffix of
/// the front chunk remains.
pub struct PendingQueue {
    chunks: VecDeque<Vec<u8>>,
    len: usize,
}

impl PendingQueue {
    /// The queued chunks, front (next to be written) first.
    pub closed spec fn chunks(&self) -> Seq<Seq<u8>> {
        self.chunks@.map_values(|c: Vec<u8>| c@)
    }

    /// All queued bytes, in the order they are owed to the destination.
    pub open spec fn bytes(&self) -> Seq<u8> {
        self.chunks().flatten()
    }

    /// The stored byte count agrees with the queued bytes.
    pub closed spec fn wf(&self) -> bool {
        self.len == self.bytes().len()
    }

    /// An empty queue, created when the tunnel is established.
    pub fn new() -> (r: PendingQueue)
        ensures
            r.wf(),
            r.chunks() == Seq::<Seq<u8>>::empty(),
    {
        let r = PendingQueue { chunks: VecDeque::new(), len: 0 };
        proof {
            assert(r.chunks() =~= Seq::<Seq<u8>>::empty());
            r.chunks().lemma_flatten_one_element();
            assert(r.bytes() =~= Seq::<u8>::empty());
        }
        r
    }

    /// How many bytes are queued.
    pub fn byte_len(&self) -> (r: usize)
        requires
            self.wf(),
        ensures
            r == self.bytes().len(),
    {
        self.len
    }

    /// Whether nothing is owed to the destination.
    pub fn is_empty(&self) -> (r: bool)
        requires
            self.wf(),
        ensures
            r == (self.bytes().len() == 0),
    {
        self.len == 0
    }

    /// Append freshly read bytes as a new chunk at the back of the queue.
    pub fn push_chunk(&mut self, data: Vec<u8>)
        requires
            old(self).wf(),
            old(self).bytes().len() + data@.len() <= usize::MAX,
        ensures
            final(self).wf(),
            final(self).chunks() == old(self).chunks().push(data@),
            final(self).bytes() == old(self).bytes() + data@,
    {
        proof {
            old(self).chunks().lemma_flatten_push(data@);
        }
        let ghost prior = self.chunks@;
        self.len = self.len + data.len();
        self.chunks.push_back(data);
        proof {
            assert(self.chunks() =~= prior.map_values(|c: Vec<u8>| c@).push(self.chunks@.last()@));
        }
    }

    /// The chunk a flush should try to write next: the front of the queue.
    pub fn front_chunk(&self) -> (r: Option<&Vec<u8>>)
        ensures
            match r {
                Some(c) => self.chunks().len() > 0 && c@ == self.chunks()[0],
                None => self.chunks().len() == 0,
            },
    {
        if self.chunks.len() == 0 {
            None
        } else {
            Some(&self.chunks[0])
        }
    }

    /// Drop `n` delivered bytes from the front of the queue: the whole front
    /// chunk when the write took all of it, otherwise only its written
    /// prefix, requeueing the unwritten suffix at the front.
    pub fn consume_front(&mut self, n: usize)
        requires
            old(self).wf(),
            old(self).chunks().len() > 0,
            n <= old(self).chunks()[0].len(),
        ensures
            final(self).wf(),
            final(self).bytes() == old(self).bytes().skip(n as int),
            final(self).chunks() == (if n == old(self).chunks()[0].len() {
                old(self).chunks().drop_first()
            } else {
                seq![old(self).chunks()[0].skip(n as int)] + old(self).chunks().drop_first()
            }),
    {
        let ghost prior = self.chunks();
        proof {
            lemma_flatten_decompose(prior);
        }
        let popped = self.chunks.pop_front();
        let mut chunk = popped.unwrap();
        proof {
            assert(self.chunks() =~= prior.drop_first());
        }
        if n < chunk.len() {
            let rest = chunk.split_off(n);
            let ghost mid = self.chunks@;
            self.chunks.push_front(rest);
            proof {
                assert(self.chunks() =~= seq![prior[0].skip(n as int)] + prior.drop_first());
                lemma_flatten_decompose(self.chunks());
                assert(self.chunks()[0] == prior[0].skip(n as int));
                assert(self.chunks().drop_first() =~= prior.drop_first());
                assert(self.bytes() == prior[0].skip(n as int) + prior.drop_first().flatten());
                assert(old(self).bytes().skip(n as int) =~= prior[0].skip(n as int)
                    + prior.drop_first().flatten());
            }
        } else {
            proof {
                assert(self.bytes() =~= old(self).bytes().skip(n as int));
            }
        }
        self.len = self.len - n;
    }
}

/// One direction of the tunnel.
#[derive(Clone, Copy, Debug, PartialEq, Eq)]
pub enum Direction {
    ClientToTarget,
    TargetToClient,
}

/// The other direction of the same tunnel.
pub open spec fn opposite(dir: Direction) -> Direction {
    match dir {
        Direction::ClientToTarget => Direction::TargetToClient,
        Direction::TargetToClient => Direction::ClientToTarget,
    }
}

/// How a relay ended: a clean end of stream on either side, or an I/O
/// failure on either read or write. Either one ends both directions.
#[derive(Clone, Copy, Debug, PartialEq, Eq)]
pub enum RelayEnd {
    EndOfStream,
    IoError,
}

/// Once a destination's pending queue holds this many bytes, the engine asks
/// its caller to stop reading from the source side until the queue drains:
/// backpressure bounds the queue instead of letting it grow without limit.
pub const PENDING_LIMIT: usize = 1048576;

/// The bidirectional forwarding engine for one established tunnel. It owns
/// the two pending queues and the accounting of what each side produced and
/// what was delivered to it; the caller performs the socket reads and writes
/// and reports each result as an event.
pub struct Relay {
    to_target: PendingQueue,
    to_client: PendingQueue,
    from_client: Ghost<Seq<u8>>,
    from_target: Ghost<Seq<u8>>,
    sent_to_target: Ghost<Seq<u8>>,
    sent_to_client: Ghost<Seq<u8>>,
    outcome: Option<RelayEnd>,
}

impl Relay {
    /// All bytes read so far from the source side of `dir`.
    pub closed spec fn received(&self, dir: Direction) -> Seq<u8> {
        match dir {
            Direction::ClientToTarget => self.from_client@,
            Direction::TargetToClient => self.from_target@,
        }
    }

    /// All bytes the destination side of `dir` has accepted so far.
    pub closed spec fn delivered(&self, dir: Direction) -> Seq<u8> {
        match dir {
            Direction::ClientToTarget => self.sent_to_target@,
            Direction::TargetToClient => self.sent_to_client@,
        }
    }

    /// The chunks still owed to the destination side of `dir`, front first.
    pub closed spec fn pending_chunks(&self, dir: Direction) -> Seq<Seq<u8>> {
        match dir {
            Direction::ClientToTarget => self.to_target.chunks(),
            Direction::TargetToClient => self.to_client.chunks(),
        }
    }

    /// The bytes still owed to the destination side of `dir`, in order.
    pub open spec fn pending(&self, dir: Direction) -> Seq<u8> {
        self.pending_chunks(dir).flatten()
    }

    /// How the relay ended, while `None` it is still running.
    pub closed spec fn end_state(&self) -> Option<RelayEnd> {
        self.outcome
    }

    /// Whether the relay has ended.
    pub open spec fn is_done(&self) -> bool {
        self.end_state() is Some
    }

    /// The byte accounting of both queues is intact.
    pub closed spec fn queues_wf(&self) -> bool {
        self.to_target.wf() && self.to_client.wf()
    }

    /// Nothing is lost and nothing is duplicated in one direction: what was
    /// delivered, followed by what is still queued, is exactly what the
    /// source produced.
    pub open spec fn dir_wf(&self, dir: Direction) -> bool {
        self.delivered(dir) + self.pending(dir) == self.received(dir)
    }

    /// The engine's invariant, established at creation and preserved by
    /// every event.
    pub open spec fn wf(&self) -> bool {
        &&& self.queues_wf()
        &&& self.dir_wf(Direction::ClientToTarget)
        &&& self.dir_wf(Direction::TargetToClient)
    }

    /// The state of direction `dir` agrees between `self` and `other`.
    pub open spec fn dir_state_eq(&self, other: &Relay, dir: Direction) -> bool {
        &&& self.received(dir) == other.received(dir)
        &&& self.delivered(dir) == other.delivered(dir)
        &&& self.pending_chunks(dir) == other.pending_chunks(dir)
    }

    /// A fresh engine for a newly established tunnel: nothing received,
    /// nothing delivered, nothing pending, both directions running.
    pub fn new() -> (r: Relay)
        ensures
            r.wf(),
            !r.is_done(),
            forall|d: Direction| #[trigger] r.received(d) == Seq::<u8>::empty(),
            forall|d: Direction| #[trigger] r.delivered(d) == Seq::<u8>::empty(),
            forall|d: Direction| #[trigger] r.pending_chunks(d) == Seq::<Seq<u8>>::empty(),
    {
        let r = Relay {
            to_target: PendingQueue::new(),
            to_client: PendingQueue::new(),
            from_client: Ghost(Seq::empty()),
            from_target: Ghost(Seq::empty()),
            sent_to_target: Ghost(Seq::empty()),
            sent_to_client: Ghost(Seq::empty()),
            outcome: None,
        };
        proof {
            assert(Seq::<Seq<u8>>::empty().flatten() =~= Seq::<u8>::empty());
            assert(Seq::<u8>::empty() + Seq::<u8>::empty() =~= Seq::<u8>::empty());
        }
        r
    }

    /// Whether the relay is still running.
    pub fn is_active(&self) -> (r: bool)
        ensures
            r == !self.is_done(),
    {
        self.outcome.is_none()
    }

    /// How the relay ended, while it runs `None`.
    pub fn end(&self) -> (r: Option<RelayEnd>)
        ensures
            r == self.end_state(),
    {
        self.outcome
    }

    /// Whether the engine is still running and the destination of `dir` has
    /// room for more: when the pending queue reaches its bound, reading from
    /// the source is suspended until the queue drains (backpressure).
    pub fn wants_read(&self, dir: Direction) -> (r: bool)
        requires
            self.wf(),
        ensures
            r == (!self.is_done() && self.pending(dir).len() < PENDING_LIMIT),
    {
        if self.outcome.is_some() {
            return false;
        }
        let q = match dir {
            Direction::ClientToTarget => &self.to_target,
            Direction::TargetToClient => &self.to_client,
        };
        q.byte_len() < PENDING_LIMIT
    }

    /// How many bytes are owed to the destination of `dir`.
    pub fn pending_len(&self, dir: Direction) -> (r: usize)
        requires
            self.wf(),
        ensures
            r == self.pending(dir).len(),
    {
        match dir {
            Direction::ClientToTarget => self.to_target.byte_len(),
            Direction::TargetToClient => self.to_client.byte_len(),
        }
    }

    /// The chunk to write next toward the destination of `dir`, if any.
    pub fn front_chunk(&self, dir: Direction) -> (r: Option<&Vec<u8>>)
        ensures
            match r {
                Some(c) => self.pending_chunks(dir).len() > 0 && c@ == self.pending_chunks(
                    dir,
                )[0],
                None => self.pending_chunks(dir).len() == 0,
            },
    {
        match dir {
            Direction::ClientToTarget => self.to_target.front_chunk(),
            Direction::TargetToClient => self.to_client.front_chunk(),
        }
    }

    /// Fresh bytes read from the source side of `dir`: queue them, as one
    /// chunk, toward its destination. A finished relay ignores the event.
    pub fn on_data(&mut self, dir: Direction, data: Vec<u8>)
        requires
            old(self).wf(),
            data@.len() > 0,
            old(self).pending(dir).len() + data@.len() <= usize::MAX,
        ensures
            final(self).wf(),
            final(self).end_state() == old(self).end_state(),
            old(self).is_done() ==> *final(self) == *old(self),
            !old(self).is_done() ==> {
                &&& final(self).received(dir) == old(self).received(dir) + data@
                &&& final(self).delivered(dir) == old(self).delivered(dir)
                &&& final(self).pending_chunks(dir) == old(self).pending_chunks(dir).push(data@)
                &&& final(self).dir_state_eq(old(self), opposite(dir))
            },
    {
        if self.outcome.is_some() {
            return;
        }
        let ghost d = data@;
        match dir {
            Direction::ClientToTarget => {
                self.to_target.push_chunk(data);
                proof {
                    self.from_client@ = self.from_client@ + d;
                    assert(self.delivered(dir) + self.pending(dir) =~= self.received(dir));
                }
            },
            Direction::TargetToClient => {
                self.to_client.push_chunk(data);
                proof {
                    self.from_target@ = self.from_target@ + d;
                    assert(self.delivered(dir) + self.pending(dir) =~= self.received(dir));
                }
            },
        }
    }

    /// The destination of `dir` accepted `n` bytes of the front chunk: they
    /// are delivered. A short write (`n` below the chunk's length) leaves
    /// the unwritten remainder owed at the front of the queue, to be
    /// delivered by a later flush.
    pub fn on_written(&mut self, dir: Direction, n: usize)
        requires
            old(self).wf(),
            old(self).pending_chunks(dir).len() > 0,
            n <= old(self).pending_chunks(dir)[0].len(),
        ensures
            final(self).wf(),
            final(self).end_state() == old(self).end_state(),
            final(self).received(dir) == old(self).received(dir),
            final(self).delivered(dir) == old(self).delivered(dir) + old(self).pending(
                dir,
            ).take(n as int),
            final(self).pending(dir) == old(self).pending(dir).skip(n as int),
            final(self).pending_chunks(dir) == (if n == old(self).pending_chunks(dir)[0].len() {
                old(self).pending_chunks(dir).drop_first()
            } else {
                seq![old(self).pending_chunks(dir)[0].skip(n as int)] + old(self).pending_chunks(
                    dir,
                ).drop_first()
            }),
            final(self).dir_state_eq(old(self), opposite(dir)),
    {
        let ghost written = self.pending(dir).take(n as int);
        match dir {
            Direction::ClientToTarget => {
                self.to_target.consume_front(n);
                proof {
                    self.sent_to_target@ = self.sent_to_target@ + written;
                }
            },
            Direction::TargetToClient => {
                self.to_client.consume_front(n);
                proof {
                    self.sent_to_client@ = self.sent_to_client@ + written;
                }
            },
        }
        proof {
            assert((old(self).delivered(dir) + written) + old(self).pending(dir).skip(n as int)
                =~= old(self).delivered(dir) + old(self).pending(dir));
        }
    }

    /// A read on either socket returned zero bytes: that source reached end
    /// of stream and the relay ends as a whole, both directions. Once ended
    /// it stays ended, and later events leave it unchanged.
    pub fn on_eof(&mut self)
        requires
            old(self).wf(),
        ensures
            final(self).wf(),
            old(self).is_done() ==> *final(self) == *old(self),
            !old(self).is_done() ==> {
                &&& final(self).end_state() == Some(RelayEnd::EndOfStream)
                &&& final(self).dir_state_eq(old(self), Direction::ClientToTarget)
                &&& final(self).dir_state_eq(old(self), Direction::TargetToClient)
            },
    {
        if self.outcome.is_none() {
            self.outcome = Some(RelayEnd::EndOfStream);
        }
    }

    /// A read or write on either socket failed: the relay ends as a whole,
    /// both directions, and reports the failure. Only this connection is
    /// affected; the engine owns no other session's state.
    pub fn on_io_error(&mut self)
        requires
            old(self).wf(),
        ensures
            final(self).wf(),
            old(self).is_done() ==> *final(self) == *old(self),
            !old(self).is_done() ==> {
                &&& final(self).end_state() == Some(RelayEnd::IoError)
                &&& final(self).dir_state_eq(old(self), Direction::ClientToTarget)
                &&& final(self).dir_state_eq(old(self), Direction::TargetToClient)
            },
    {
        if self.outcome.is_none() {
            self.outcome = Some(RelayEnd::IoError);
        }
    }
}

/// Order and content are preserved per direction: in a well-formed engine
/// the delivered bytes are exactly the leading prefix of what the source
/// produced, the queued bytes are exactly the rest, and once the queue is
/// drained the destination has seen precisely the source's byte sequence —
/// however the reads and writes chunked it.
pub proof fn lemma_relay_preserves_stream(r: &Relay, dir: Direction)
    requires
        r.wf(),
    ensures
        r.delivered(dir) + r.pending(dir) == r.received(dir),
        r.delivered(dir) == r.received(dir).take(r.delivered(dir).len() as int),
        r.pending(dir) == r.received(dir).skip(r.delivered(dir).len() as int),
        r.pending(dir).len() == 0 ==> r.delivered(dir) == r.received(dir),
{
    assert(r.delivered(dir) =~= r.received(dir).take(r.delivered(dir).len() as int));
    assert(r.pending(dir) =~= r.received(dir).skip(r.delivered(dir).len() as int));
    if r.pending(dir).len() == 0 {
        assert(r.delivered(dir) =~= r.received(dir));
    }
}

} // verus!
