//! The per-connection read buffer: unparsed inbound bytes. Bytes are
//! appended only at the tail and removed only from the head, so the
//! buffer always holds a contiguous run of the stream, in arrival order.

use vstd::prelude::*;

verus! {

/// Unparsed bytes pulled from one connection, oldest first.
pub struct ReadBuffer {
    data: Vec<u8>,
}

impl View for ReadBuffer {
    type V = Seq<u8>;

    closed spec fn view(&self) -> Seq<u8> {
        self.data@
    }
}

impl ReadBuffer {
    /// An empty buffer.
    pub fn new() -> (r: ReadBuffer)
        ensures
            r@ == Seq::<u8>::empty(),
    {
        ReadBuffer { data: Vec::new() }
    }

    /// Borrow the unparsed bytes.
    pub fn buffer(&self) -> (r: &[u8])
        ensures
            r@ == self@,
    {
        self.data.as_slice()
    }

    /// Number of unparsed bytes.
    pub fn len(&self) -> (r: usize)
        ensures
            r == self@.len(),
    {
        self.data.len()
    }

    /// Append freshly received bytes at the tail, returning how many were
    /// taken. The caller pulls them from its source; the buffer keeps the
    /// arrival order.
    pub fn append(&mut self, incoming: &[u8]) -> (r: usize)
        requires
            old(self)@.len() + incoming@.len() <= usize::MAX,
        ensures
            final(self)@ == old(self)@ + incoming@,
            r == incoming@.len(),
    {
        self.data.extend_from_slice(incoming);
        incoming.len()
    }

    /// Discard the first `n` bytes.
    pub fn consume(&mut self, n: usize)
        requires
            n <= old(self)@.len(),
        ensures
            final(self)@ == old(self)@.skip(n as int),
    {
        let len = self.data.len();
        let mut rest: Vec<u8> = Vec::new();
        let mut i: usize = n;
        while i < len
            invariant
                n <= i <= len,
                len == self.data@.len(),
                self.data@ == old(self)@,
                rest@ == self.data@.subrange(n as int, i as int),
            decreases len - i,
        {
            let byte: u8 = self.data[i];
            rest.push(byte);
            i = i + 1;
        }
        self.data = rest;
        proof {
            assert(self@ =~= old(self)@.skip(n as int));
        }
    }

    /// Drain up to `n` bytes from the head, in arrival order. Returns
    /// fewer only when fewer are buffered.
    pub fn read(&mut self, n: usize) -> (r: Vec<u8>)
        ensures
            ({
                let k = if n <= old(self)@.len() {
                    n as int
                } else {
                    old(self)@.len() as int
                };
                &&& r@ == old(self)@.take(k)
                &&& final(self)@ == old(self)@.skip(k)
            }),
    {
        let k = if n <= self.data.len() {
            n
        } else {
            self.data.len()
        };
        let mut taken: Vec<u8> = Vec::new();
        let mut i: usize = 0;
        while i < k
            invariant
                i <= k,
                k <= self.data@.len(),
                self.data@ == old(self)@,
                taken@ == self.data@.subrange(0, i as int),
            decreases k - i,
        {
            let byte: u8 = self.data[i];
            taken.push(byte);
            i = i + 1;
        }
        self.consume(k);
        proof {
            assert(taken@ =~= old(self)@.take(k as int));
        }
        taken
    }
}

impl Default for ReadBuffer {
    /// An empty buffer.
    fn default() -> (r: ReadBuffer)
        ensures
            r@ == Seq::<u8>::empty(),
    {
        ReadBuffer::new()
    }
}

} // verus!
