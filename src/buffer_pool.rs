use vstd::prelude::*;

verus! {

/// A bag of recycled byte buffers of one fixed size, with a count of every
/// buffer that the pool has allocated and not yet freed.
///
/// `take` hands a buffer out by value, so its taker is its only writer;
/// `give_back` returns it (or frees it, when it no longer has the pool's
/// size). Buffers are not cleared between uses: takers overwrite them.
#[derive(Debug)]
pub struct BufferPool {
    buf_size: usize,
    available: Vec<Vec<u8>>,
    total_allocated: usize,
}

impl BufferPool {
    /// The length of every buffer the pool hands out.
    pub closed spec fn spec_buf_size(&self) -> usize {
        self.buf_size
    }

    /// The buffers waiting in the pool, in the order they will be reused
    /// (the last one first).
    pub closed spec fn spec_available(&self) -> Seq<Seq<u8>> {
        self.available@.map_values(|b: Vec<u8>| b@)
    }

    /// Buffers allocated by the pool and not freed: those waiting in it and
    /// those handed out.
    pub closed spec fn spec_total(&self) -> nat {
        self.total_allocated as nat
    }

    /// Buffers handed out and not yet given back.
    pub open spec fn spec_outstanding(&self) -> int {
        self.spec_total() - self.spec_available().len()
    }

    /// Every waiting buffer has the pool's size, and each of them is counted.
    pub closed spec fn wf(&self) -> bool {
        &&& self.available@.len() <= self.total_allocated
        &&& forall|i: int| 0 <= i < self.available@.len() ==> #[trigger] self.available@[i]@.len() == self.buf_size
    }

    /// A pool holding `reserved_count` zero-filled buffers of `buf_size` bytes.
    pub fn new(buf_size: usize, reserved_count: usize) -> (r: BufferPool)
        ensures
            r.wf(),
            r.spec_buf_size() == buf_size,
            r.spec_total() == reserved_count,
            r.spec_available().len() == reserved_count,
            forall|i: int| 0 <= i < reserved_count ==> #[trigger] r.spec_available()[i] == Seq::new(buf_size as nat, |j: int| 0u8),
    {
        let mut available: Vec<Vec<u8>> = Vec::with_capacity(reserved_count);
        let mut total_allocated: usize = 0;
        while total_allocated < reserved_count
            invariant
                total_allocated <= reserved_count,
                available@.len() == total_allocated,
                forall|i: int| 0 <= i < total_allocated ==> #[trigger] available@[i]@ == Seq::new(buf_size as nat, |j: int| 0u8),
            decreases reserved_count - total_allocated,
        {
            let buf: Vec<u8> = vec![0u8; buf_size];
            assert(buf@ =~= Seq::new(buf_size as nat, |j: int| 0u8));
            available.push(buf);
            total_allocated = total_allocated + 1;
        }
        let r = BufferPool { buf_size, available, total_allocated };
        assert(r.spec_available().len() == reserved_count);
        r
    }

    /// The length of every buffer the pool hands out.
    pub fn buf_size(&self) -> (r: usize)
        ensures
            r == self.spec_buf_size(),
    {
        self.buf_size
    }

    /// How many buffers the pool has allocated and not freed.
    pub fn total_allocated(&self) -> (r: usize)
        ensures
            r == self.spec_total(),
    {
        self.total_allocated
    }

    /// How many buffers wait in the pool.
    pub fn available_count(&self) -> (r: usize)
        ensures
            r == self.spec_available().len(),
    {
        self.available.len()
    }

    /// Hands out a buffer of the pool's size: the most recently returned
    /// one if any waits, else a freshly allocated zero-filled one.
    pub fn take(&mut self) -> (r: Vec<u8>)
        requires
            old(self).wf(),
            old(self).spec_available().len() > 0 || old(self).spec_total() < usize::MAX,
        ensures
            final(self).wf(),
            final(self).spec_buf_size() == old(self).spec_buf_size(),
            r@.len() == old(self).spec_buf_size(),
            final(self).spec_outstanding() == old(self).spec_outstanding() + 1,
            old(self).spec_available().len() > 0 ==> {
                &&& r@ == old(self).spec_available().last()
                &&& final(self).spec_available() == old(self).spec_available().drop_last()
                &&& final(self).spec_total() == old(self).spec_total()
            },
            old(self).spec_available().len() == 0 ==> {
                &&& r@ == Seq::new(old(self).spec_buf_size() as nat, |j: int| 0u8)
                &&& final(self).spec_available() == old(self).spec_available()
                &&& final(self).spec_total() == old(self).spec_total() + 1
            },
    {
        match self.available.pop() {
            Some(buf) => {
                assert(self.spec_available() =~= old(self).spec_available().drop_last());
                buf
            },
            None => {
                self.total_allocated = self.total_allocated + 1;
                let buf: Vec<u8> = vec![0u8; self.buf_size];
                assert(buf@ =~= Seq::new(self.buf_size as nat, |j: int| 0u8));
                buf
            },
        }
    }

    /// Takes a buffer back: a buffer of the pool's size waits for reuse,
    /// any other is freed and no longer counted.
    pub fn give_back(&mut self, buf: Vec<u8>) -> (pooled: bool)
        requires
            old(self).wf(),
            old(self).spec_outstanding() > 0,
        ensures
            final(self).wf(),
            final(self).spec_buf_size() == old(self).spec_buf_size(),
            final(self).spec_outstanding() == old(self).spec_outstanding() - 1,
            pooled == (buf@.len() == old(self).spec_buf_size()),
            pooled ==> final(self).spec_available() == old(self).spec_available().push(buf@)
                && final(self).spec_total() == old(self).spec_total(),
            !pooled ==> final(self).spec_available() == old(self).spec_available()
                && final(self).spec_total() == old(self).spec_total() - 1,
    {
        if buf.len() == self.buf_size {
            let ghost b = buf@;
            self.available.push(buf);
            assert(self.spec_available() =~= old(self).spec_available().push(b));
            true
        } else {
            self.total_allocated = self.total_allocated - 1;
            false
        }
    }

    /// Buffers handed out and not yet given back, saturated at `u32::MAX`.
    pub fn outstanding(&self) -> (r: u32)
        requires
            self.wf(),
        ensures
            r == if self.spec_outstanding() > u32::MAX {
                u32::MAX as int
            } else {
                self.spec_outstanding()
            },
    {
        let n = self.total_allocated - self.available.len();
        if n > u32::MAX as usize {
            u32::MAX
        } else {
            n as u32
        }
    }
}

} // verus!
