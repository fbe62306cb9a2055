//! Receive buffer: bytes arrive at the back and are consumed from the front.
use vstd::prelude::*;

verus! {

broadcast use vstd::seq::group_seq_axioms, vstd::seq_lib::group_seq_properties;

/// A byte queue. Consumed bytes are dropped lazily: the storage is
/// compacted once at least 4096 consumed bytes make up half of it.
#[derive(Debug)]
pub struct Buffer {
    data: Vec<u8>,
    start: usize,
}

impl View for Buffer {
    type V = Seq<u8>;

    /// The bytes received and not yet consumed, oldest first.
    closed spec fn view(&self) -> Seq<u8> {
        self.data@.skip(self.start as int)
    }
}

impl Default for Buffer {
    fn default() -> (r: Self)
        ensures
            r@ == Seq::<u8>::empty(),
    {
        Buffer::new()
    }
}

impl Buffer {
    #[verifier::type_invariant]
    spec fn inv(self) -> bool {
        self.start <= self.data@.len()
    }

    #[must_use]
    pub fn new() -> (r: Self)
        ensures
            r@ == Seq::<u8>::empty(),
    {
        let r = Buffer { data: Vec::new(), start: 0 };
        assert(r@ =~= Seq::<u8>::empty());
        r
    }

    #[must_use]
    pub fn len(&self) -> (r: usize)
        ensures
            r == self@.len(),
    {
        proof { use_type_invariant(self); }
        self.data.len() - self.start
    }

    #[must_use]
    pub fn is_empty(&self) -> (r: bool)
        ensures
            r == (self@.len() == 0),
    {
        proof { use_type_invariant(self); }
        self.start >= self.data.len()
    }

    /// Appends received bytes.
    pub fn extend(&mut self, bytes: &[u8])
        ensures
            final(self)@ == old(self)@ + bytes@,
    {
        proof { use_type_invariant(&*self); }
        let keep = self.start;
        self.start = 0;
        let mut data: Vec<u8> = Vec::new();
        std::mem::swap(&mut data, &mut self.data);
        let ghost start = data@;
        let mut i: usize = 0;
        while i < bytes.len()
            invariant
                i <= bytes@.len(),
                data@ == start + bytes@.take(i as int),
            decreases bytes.len() - i,
        {
            data.push(bytes[i]);
            i = i + 1;
            assert(data@ =~= start + bytes@.take(i as int));
        }
        std::mem::swap(&mut data, &mut self.data);
        self.start = keep;
        assert(self.data@ =~= old(self).data@ + bytes@);
        assert(self@ =~= old(self)@ + bytes@);
    }

    /// The first `n` unread bytes, without consuming them; `None` when
    /// fewer are buffered.
    #[must_use]
    pub fn peek(&self, n: usize) -> (r: Option<&[u8]>)
        ensures
            n <= self@.len() ==> (r matches Some(bytes) && bytes@ == self@.take(n as int)),
            n > self@.len() ==> r is None,
    {
        proof { use_type_invariant(self); }
        if n > self.data.len() - self.start {
            return None;
        }
        let bytes = vstd::slice::slice_subrange(self.data.as_slice(), self.start, self.start + n);
        assert(bytes@ =~= self@.take(n as int));
        Some(bytes)
    }

    /// Drops the first `n` unread bytes.
    pub fn consume(&mut self, n: usize)
        requires
            n <= old(self)@.len(),
        ensures
            final(self)@ == old(self)@.skip(n as int),
    {
        proof { use_type_invariant(&*self); }
        let ghost want = old(self)@.skip(n as int);
        assert(old(self)@.len() == self.data@.len() - self.start);
        let total = self.data.len();
        let mut start = self.start + n;
        self.start = 0;
        let mut data: Vec<u8> = Vec::new();
        std::mem::swap(&mut data, &mut self.data);
        assert(data@.skip(start as int) =~= want);
        if start >= 4096 && start >= data.len() - start {
            data = data.split_off(start);
            start = 0;
            assert(data@.skip(start as int) =~= want);
        }
        if start >= data.len() {
            data.clear();
            start = 0;
            assert(data@.skip(start as int) =~= want);
        }
        self.data = data;
        self.start = start;
    }

    /// Removes and returns the first `n` unread bytes; `None` (and nothing
    /// consumed) when fewer are buffered.
    pub fn take(&mut self, n: usize) -> (r: Option<Vec<u8>>)
        ensures
            n <= old(self)@.len() ==> (r matches Some(bytes) && bytes@ == old(self)@.take(n as int)
                && final(self)@ == old(self)@.skip(n as int)),
            n > old(self)@.len() ==> r is None && final(self)@ == old(self)@,
    {
        let bytes = match self.peek(n) {
            Some(bytes) => vstd::slice::slice_to_vec(bytes),
            None => return None,
        };
        self.consume(n);
        Some(bytes)
    }
}

} // verus!
