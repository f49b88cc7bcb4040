//! The buffer engine: a fixed-capacity, append-only byte store.
//!
//! Replies from the device accumulate here one byte at a time. The buffer
//! never grows past [`BUF_CAPACITY`]; pushing past capacity is reported, never
//! silently truncated. The owner may clear the whole buffer or compact it by
//! dropping a consumed prefix while keeping the trailing bytes.

use vstd::prelude::*;

use crate::error::Error;
use crate::storage;
use crate::storage::BUF_CAPACITY;

verus! {

/// What a buffer holds after it is cleared.
pub open spec fn cleared(s: Seq<u8>) -> Seq<u8> {
    Seq::<u8>::empty()
}

/// What a buffer holds after its first `at` bytes are dropped and the
/// remainder is shifted to the front.
pub open spec fn compacted_front(s: Seq<u8>, at: int) -> Seq<u8> {
    s.skip(at)
}

/// Clearing twice in a row is a no-op the second time.
pub proof fn lemma_clear_idempotent(s: Seq<u8>)
    ensures
        cleared(cleared(s)) == cleared(s),
{
}

/// Compacting by zero bytes is a no-op.
pub proof fn lemma_compact_front_zero(s: Seq<u8>)
    ensures
        compacted_front(s, 0) == s,
{
    assert(compacted_front(s, 0) =~= s);
}

/// A fixed-capacity byte buffer. Its view is the sequence of bytes it holds,
/// oldest first; the sequence never exceeds [`BUF_CAPACITY`].
pub struct ByteBuffer {
    store: heapless::Vec<u8, BUF_CAPACITY>,
}

impl View for ByteBuffer {
    type V = Seq<u8>;

    closed spec fn view(&self) -> Seq<u8> {
        storage::stored(self.store)
    }
}

impl ByteBuffer {
    /// The buffer never holds more bytes than its fixed capacity.
    pub open spec fn wf(&self) -> bool {
        self@.len() <= BUF_CAPACITY
    }

    /// Creates an empty buffer.
    pub fn new() -> (r: ByteBuffer)
        ensures
            r@ == Seq::<u8>::empty(),
            r.wf(),
    {
        ByteBuffer { store: storage::store_new() }
    }

    /// The number of bytes currently held.
    pub fn len(&self) -> (r: usize)
        ensures
            r == self@.len(),
    {
        storage::store_len(&self.store)
    }

    /// Whether the buffer holds no bytes.
    pub fn is_empty(&self) -> (r: bool)
        ensures
            r == (self@.len() == 0),
    {
        self.len() == 0
    }

    /// Whether the buffer is at capacity.
    pub fn is_full(&self) -> (r: bool)
        ensures
            r == (self@.len() == BUF_CAPACITY),
    {
        self.len() == BUF_CAPACITY
    }

    /// Appends one byte. When the buffer is already at capacity the push
    /// fails and the contents are left exactly as they were.
    pub fn push(&mut self, byte: u8) -> (r: Result<(), Error>)
        requires
            old(self).wf(),
        ensures
            final(self).wf(),
            old(self)@.len() < BUF_CAPACITY ==> r is Ok && final(self)@ == old(self)@.push(byte),
            old(self)@.len() == BUF_CAPACITY ==> r == Err::<(), Error>(Error::BufferFull)
                && final(self)@ == old(self)@,
    {
        if storage::store_push(&mut self.store, byte) {
            Ok(())
        } else {
            Err(Error::BufferFull)
        }
    }

    /// Resets the logical length to zero; the backing storage is reused.
    pub fn clear(&mut self)
        ensures
            final(self).wf(),
            final(self)@ == cleared(old(self)@),
    {
        storage::store_clear(&mut self.store);
    }

    /// Drops the first `at` bytes by shifting the remainder to the front.
    /// This is an O(remaining-length) compaction, kept simple on purpose:
    /// buffer sizes are small and bounded.
    pub fn truncate_front(&mut self, at: usize)
        requires
            old(self).wf(),
            at <= old(self)@.len(),
        ensures
            final(self).wf(),
            final(self)@ == compacted_front(old(self)@, at as int),
    {
        let ghost orig = self@;
        let len = self.len();
        let mut from: usize = at;
        while from < len
            invariant
                at <= from <= len,
                len == orig.len() <= BUF_CAPACITY,
                self@.len() == orig.len(),
                forall|j: int| 0 <= j < from - at ==> self@[j] == orig[at + j],
                forall|j: int| from - at <= j < orig.len() ==> self@[j] == orig[j],
            decreases len - from,
        {
            let byte = storage::store_get(&self.store, from);
            assert(byte == orig[from as int]);
            storage::store_set(&mut self.store, from - at, byte);
            from = from + 1;
        }
        storage::store_truncate(&mut self.store, len - at);
        assert(self@ =~= compacted_front(orig, at as int));
    }

    /// The byte at position `i`.
    pub fn byte_at(&self, i: usize) -> (r: u8)
        requires
            i < self@.len(),
        ensures
            r == self@[i as int],
    {
        storage::store_get(&self.store, i)
    }

    /// Copies the current contents out into an ordinary vector.
    pub fn to_vec(&self) -> (r: Vec<u8>)
        ensures
            r@ == self@,
    {
        storage::store_to_vec(&self.store)
    }
}

} // verus!
