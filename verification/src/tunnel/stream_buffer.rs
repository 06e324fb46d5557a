use vstd::prelude::*;
use vstd::slice::slice_subrange;

verus! {

/// Bytes waiting to be sent. Bytes are appended at the end; those before the
/// cursor have been sent.
pub struct StreamBuffer {
    list: Vec<u8>,
    cursor: usize,
}

impl View for StreamBuffer {
    type V = Seq<u8>;

    /// The bytes that are still to be sent, in order.
    closed spec fn view(&self) -> Seq<u8> {
        self.list@.skip(self.cursor as int)
    }
}

impl StreamBuffer {
    /// The cursor lies within the buffer.
    pub closed spec fn wf(&self) -> bool {
        self.cursor <= self.list.len()
    }

    pub fn new() -> (r: Self)
        ensures
            r.wf(),
            r@ == Seq::<u8>::empty(),
    {
        StreamBuffer { list: Vec::new(), cursor: 0 }
    }

    /// How many bytes are still to be sent.
    pub fn size(&self) -> (r: usize)
        requires
            self.wf(),
        ensures
            r == self@.len(),
    {
        self.list.len() - self.cursor
    }

    pub fn is_not_empty(&self) -> (r: bool)
        requires
            self.wf(),
        ensures
            r == (self@.len() > 0),
    {
        self.size() > 0
    }

    /// Appends `data`.
    pub fn write(&mut self, data: &[u8])
        requires
            old(self).wf(),
        ensures
            final(self).wf(),
            final(self)@ == old(self)@ + data@,
    {
        let ghost before = self.list@;
        self.list.extend_from_slice(data);
        assert(self.list@ =~= before + data@);
        assert(self@ =~= old(self)@ + data@);
    }

    /// The bytes that are still to be sent.
    pub fn slice(&self) -> (r: &[u8])
        requires
            self.wf(),
        ensures
            r@ == self@,
    {
        let r = slice_subrange(self.list.as_slice(), self.cursor, self.list.len());
        assert(r@ =~= self@);
        r
    }

    /// Records that the first `amount` waiting bytes have been sent.
    pub fn wrote(&mut self, amount: usize)
        requires
            old(self).wf(),
            amount <= old(self)@.len(),
        ensures
            final(self).wf(),
            final(self)@ == old(self)@.skip(amount as int),
    {
        self.cursor = self.cursor + amount;
        assert(self@ =~= old(self)@.skip(amount as int));
    }

    /// Drops everything.
    pub fn reset(&mut self)
        ensures
            final(self).wf(),
            final(self)@ == Seq::<u8>::empty(),
    {
        self.cursor = 0;
        self.list.clear();
        assert(self@ =~= Seq::<u8>::empty());
    }
}

} // verus!
