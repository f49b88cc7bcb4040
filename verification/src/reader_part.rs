//! Reader half of the driver: the byte source paired with the reply buffer.

use vstd::prelude::*;

use crate::buffer::ByteBuffer;
use crate::serial::{ReadOutcome, SerialRead};
use crate::storage::BUF_CAPACITY;

verus! {

/// Outcome of one buffer pump: a drain of all currently-available bytes.
#[derive(Debug, Clone, Copy, PartialEq, Eq, Structural)]
pub enum PumpOutcome {
    /// The source reported no more data for now.
    Drained,
    /// The buffer reached capacity before the source ran dry. Not an error
    /// by itself: the caller inspects the contents.
    Filled,
    /// The source failed.
    Failed,
}

/// The byte source together with the fixed-capacity reply buffer it fills.
pub struct ReaderPart<Rx: SerialRead> {
    pub(crate) rx: Rx,
    pub(crate) buf: ByteBuffer,
}

impl<Rx: SerialRead> ReaderPart<Rx> {
    /// The bytes currently buffered.
    pub open(crate) spec fn bytes(&self) -> Seq<u8> {
        self.buf@
    }

    /// Whether the buffer is within its capacity.
    pub open(crate) spec fn wf(&self) -> bool {
        self.buf.wf()
    }

    /// Pairs the source with an empty buffer.
    pub fn new(rx: Rx) -> (r: ReaderPart<Rx>)
        ensures
            r.bytes() == Seq::<u8>::empty(),
            r.wf(),
    {
        ReaderPart { rx, buf: ByteBuffer::new() }
    }

    /// One non-blocking read attempt from the source. The buffer is left
    /// untouched.
    pub fn read_byte(&mut self) -> (r: ReadOutcome)
        ensures
            final(self).bytes() == old(self).bytes(),
            final(self).wf() == old(self).wf(),
    {
        self.rx.read_byte()
    }

    /// Drains all currently-available bytes from the source into the buffer,
    /// stopping at the first "no data". Whatever arrives, the bytes already
    /// buffered stay exactly where they were.
    pub fn read_bytes(&mut self) -> (r: PumpOutcome)
        requires
            old(self).wf(),
        ensures
            final(self).wf(),
            old(self).bytes().is_prefix_of(final(self).bytes()),
            r == PumpOutcome::Filled ==> final(self).bytes().len() == BUF_CAPACITY,
    {
        let ghost orig = self.buf@;
        loop
            invariant
                self.wf(),
                orig == old(self).bytes(),
                orig.is_prefix_of(self.buf@),
            decreases BUF_CAPACITY - self.buf@.len(),
        {
            if self.buf.is_full() {
                return PumpOutcome::Filled;
            }
            match self.rx.read_byte() {
                ReadOutcome::Byte(b) => {
                    let pushed = self.buf.push(b);
                    assert(pushed is Ok);
                    assert(orig.is_prefix_of(self.buf@));
                },
                ReadOutcome::WouldBlock => {
                    return PumpOutcome::Drained;
                },
                ReadOutcome::Failed => {
                    return PumpOutcome::Failed;
                },
            }
        }
    }
}

} // verus!
