//! A bounded first-in-first-out byte store that keeps the most recent output
//! of one process.

use std::collections::VecDeque;
use vstd::prelude::*;

verus! {

/// Number of bytes a log keeps.
pub const LOG_CAPACITY: usize = 4000;

/// The last `LOG_CAPACITY` bytes of `s` (all of `s` when it is shorter).
pub open spec fn keep_recent(s: Seq<u8>) -> Seq<u8> {
    if s.len() <= LOG_CAPACITY {
        s
    } else {
        s.subrange(s.len() - LOG_CAPACITY, s.len() as int)
    }
}

/// Retained output of one process, oldest byte first.
pub struct LogBuffer {
    bytes: VecDeque<u8>,
}

impl View for LogBuffer {
    type V = Seq<u8>;

    closed spec fn view(&self) -> Seq<u8> {
        self.bytes@
    }
}

impl LogBuffer {
    /// A log never holds more than `LOG_CAPACITY` bytes.
    #[verifier::type_invariant]
    spec fn within_capacity(&self) -> bool {
        self.bytes@.len() <= LOG_CAPACITY
    }

    /// An empty log.
    pub fn new() -> (r: LogBuffer)
        ensures
            r@ == Seq::<u8>::empty(),
    {
        LogBuffer { bytes: VecDeque::new() }
    }

    /// Number of bytes held.
    pub fn len(&self) -> (r: usize)
        ensures
            r == self@.len(),
            r <= LOG_CAPACITY,
    {
        proof {
            use_type_invariant(self);
        }
        self.bytes.len()
    }

    /// Appends `chunk`, then discards from the front until at most
    /// `LOG_CAPACITY` bytes are left.
    pub fn append(&mut self, chunk: &[u8])
        ensures
            final(self)@ == keep_recent(old(self)@ + chunk@),
            final(self)@.len() <= LOG_CAPACITY,
    {
        let ghost whole = old(self)@ + chunk@;
        let mut bytes: VecDeque<u8> = VecDeque::new();
        std::mem::swap(&mut bytes, &mut self.bytes);
        let mut i: usize = 0;
        while i < chunk.len()
            invariant
                0 <= i <= chunk@.len(),
                bytes@ == old(self)@ + chunk@.subrange(0, i as int),
            decreases chunk@.len() - i,
        {
            bytes.push_back(chunk[i]);
            assert(chunk@.subrange(0, i + 1) == chunk@.subrange(0, i as int).push(chunk@[i as int]));
            i = i + 1;
        }
        assert(chunk@.subrange(0, chunk@.len() as int) == chunk@);
        let ghost dropped: int = 0;
        while bytes.len() > LOG_CAPACITY
            invariant
                0 <= dropped <= whole.len(),
                bytes@ == whole.subrange(dropped, whole.len() as int),
                dropped > 0 ==> whole.len() - dropped >= LOG_CAPACITY,
            decreases bytes@.len(),
        {
            bytes.pop_front();
            proof {
                dropped = dropped + 1;
            }
        }
        assert(dropped > 0 ==> whole.len() - dropped == LOG_CAPACITY);
        assert(dropped == 0 ==> whole.subrange(0, whole.len() as int) == whole);
        self.bytes = bytes;
    }

    /// Replaces the whole log by the most recent part of `content`.
    pub fn reset_to(&mut self, content: &[u8])
        ensures
            final(self)@ == keep_recent(content@),
    {
        self.bytes = VecDeque::new();
        self.append(content);
        assert(Seq::<u8>::empty() + content@ == content@);
    }

    /// The retained bytes in order, for a viewer that joins late.
    pub fn snapshot(&self) -> (r: Vec<u8>)
        ensures
            r@ == self@,
    {
        let mut out: Vec<u8> = Vec::new();
        let n = self.bytes.len();
        let mut i: usize = 0;
        while i < n
            invariant
                n == self@.len(),
                0 <= i <= n,
                out@ == self@.subrange(0, i as int),
            decreases n - i,
        {
            out.push(self.bytes[i]);
            assert(self@.subrange(0, i + 1) == self@.subrange(0, i as int).push(self@[i as int]));
            i = i + 1;
        }
        assert(self@.subrange(0, n as int) == self@);
        out
    }
}

/// Appending at most `LOG_CAPACITY` bytes to an empty log gives back exactly
/// those bytes, in order.
pub proof fn lemma_round_trip(chunk: Seq<u8>)
    requires
        chunk.len() <= LOG_CAPACITY,
    ensures
        keep_recent(Seq::<u8>::empty() + chunk) == chunk,
{
    assert(Seq::<u8>::empty() + chunk == chunk);
}

/// When a log and what is appended to it exceed `LOG_CAPACITY` together, the
/// log keeps exactly the most recent `LOG_CAPACITY` bytes of the two.
pub proof fn lemma_overflow_keeps_recent(log: Seq<u8>, chunk: Seq<u8>)
    requires
        log.len() + chunk.len() > LOG_CAPACITY,
    ensures
        keep_recent(log + chunk).len() == LOG_CAPACITY,
        forall|i: int|
            0 <= i < LOG_CAPACITY ==> #[trigger] keep_recent(log + chunk)[i] == (log + chunk)[(
            log.len() + chunk.len() - LOG_CAPACITY) + i],
{
}

} // verus!
