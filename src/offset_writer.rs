//! A byte sink that counts every byte written through it.

use vstd::prelude::*;

verus! {

/// The largest offset that the ZIP records can hold.
pub const MAX_OFFSET: u32 = 0xFFFF_FFFF;

/// The most bytes this sink counts.
pub const SINK_LIMIT: u64 = 0xFFFF_FFFF_FFFF_FFFF;

/// Queues bytes for the transport and keeps the cumulative offset: the number
/// of bytes written since construction, including those already handed out.
pub struct OffsetWriter {
    buf: Vec<u8>,
    flushed: u64,
    history: Ghost<Seq<u8>>,
}

impl OffsetWriter {
    /// Every byte written since construction, in order.
    pub closed spec fn written(&self) -> Seq<u8> {
        self.history@
    }

    /// The written bytes that have not been handed out yet.
    pub closed spec fn pending(&self) -> Seq<u8> {
        self.buf@
    }

    /// How many written bytes have been handed out.
    pub closed spec fn handed_out(&self) -> nat {
        self.flushed as nat
    }

    pub closed spec fn wf(&self) -> bool {
        &&& self.history@.len() <= SINK_LIMIT
        &&& self.history@.len() == self.flushed + self.buf@.len()
        &&& self.history@.subrange(self.flushed as int, self.history@.len() as int) == self.buf@
    }

    /// The pending bytes are the written ones past those handed out.
    pub proof fn lemma_pending(&self)
        requires
            self.wf(),
        ensures
            self.handed_out() + self.pending().len() == self.written().len(),
            self.pending() == self.written().subrange(self.handed_out() as int, self.written().len() as int),
    {
    }

    pub fn new() -> (r: OffsetWriter)
        ensures
            r.wf(),
            r.written() == Seq::<u8>::empty(),
            r.pending() == Seq::<u8>::empty(),
            r.handed_out() == 0,
    {
        let r = OffsetWriter { buf: Vec::new(), flushed: 0, history: Ghost(Seq::empty()) };
        assert(r.history@.subrange(0, 0) =~= r.buf@);
        r
    }

    /// The cumulative number of bytes written.
    pub fn offset(&self) -> (r: u64)
        requires
            self.wf(),
        ensures
            r == self.written().len(),
            self.handed_out() + self.pending().len() == self.written().len(),
            self.pending() == self.written().subrange(self.handed_out() as int, self.written().len() as int),
    {
        self.flushed + self.buf.len() as u64
    }

    /// Writes `data` unchanged.
    pub fn write(&mut self, data: &[u8])
        requires
            old(self).wf(),
            old(self).written().len() + data@.len() <= SINK_LIMIT,
        ensures
            final(self).wf(),
            final(self).written() == old(self).written() + data@,
            final(self).pending() == old(self).pending() + data@,
            final(self).handed_out() == old(self).handed_out(),
    {
        self.buf.extend_from_slice(data);
        self.history = Ghost(self.history@ + data@);
        assert(self.buf@ =~= old(self).buf@ + data@);
        assert(self.history@.subrange(self.flushed as int, self.history@.len() as int) =~= self.buf@);
    }

    /// Hands out the pending bytes; the offset is unchanged.
    pub fn take(&mut self) -> (r: Vec<u8>)
        requires
            old(self).wf(),
        ensures
            final(self).wf(),
            final(self).written() == old(self).written(),
            final(self).pending() == Seq::<u8>::empty(),
            r@ == old(self).pending(),
            final(self).handed_out() == old(self).written().len(),
    {
        let mut r: Vec<u8> = Vec::new();
        std::mem::swap(&mut r, &mut self.buf);
        self.flushed = self.flushed + r.len() as u64;
        assert(self.history@.subrange(self.flushed as int, self.history@.len() as int) =~= self.buf@);
        r
    }
}

} // verus!
