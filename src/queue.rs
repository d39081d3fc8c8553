//! The staging buffer: a fixed-capacity first-in first-out ring of bytes.

use vstd::prelude::*;

verus! {

/// Number of bytes the staging buffer can hold at once.
pub const BUF_SIZE: usize = 512;

/// Storage slot of the `i`-th oldest byte when the oldest sits at `head`.
pub open spec fn slot(head: int, i: int) -> int {
    if head + i < BUF_SIZE as int {
        head + i
    } else {
        head + i - BUF_SIZE as int
    }
}

/// A ring buffer of bytes with room for `BUF_SIZE` of them.
pub struct QueueBuf {
    data: Vec<u8>,
    head: usize,
    len: usize,
}

impl View for QueueBuf {
    type V = Seq<u8>;

    /// The resident bytes, oldest first.
    closed spec fn view(&self) -> Seq<u8> {
        Seq::new(self.len as nat, |i: int| self.data@[slot(self.head as int, i)])
    }
}

impl QueueBuf {
    /// The storage matches the capacity and both cursors stay inside it.
    pub closed spec fn wf(&self) -> bool {
        &&& self.data@.len() == BUF_SIZE
        &&& self.head < BUF_SIZE
        &&& self.len <= BUF_SIZE
    }

    /// An empty buffer.
    pub fn new() -> (r: QueueBuf)
        ensures
            r.wf(),
            r@ == Seq::<u8>::empty(),
    {
        let mut data: Vec<u8> = Vec::new();
        while data.len() < BUF_SIZE
            invariant
                data@.len() <= BUF_SIZE,
            decreases BUF_SIZE - data@.len(),
        {
            data.push(0u8);
        }
        let r = QueueBuf { data, head: 0, len: 0 };
        assert(r@ =~= Seq::<u8>::empty());
        r
    }

    /// Number of resident bytes.
    pub fn len(&self) -> (r: usize)
        requires
            self.wf(),
        ensures
            r == self@.len(),
    {
        self.len
    }

    /// Whether any byte is resident.
    pub fn has_data(&self) -> (r: bool)
        requires
            self.wf(),
        ensures
            r == (self@.len() > 0),
    {
        self.len > 0
    }

    /// Whether no room is left.
    pub fn is_full(&self) -> (r: bool)
        requires
            self.wf(),
        ensures
            r == (self@.len() == BUF_SIZE),
    {
        self.len == BUF_SIZE
    }

    /// Appends `byte` behind the resident bytes.
    pub fn put(&mut self, byte: u8)
        requires
            old(self).wf(),
            old(self)@.len() < BUF_SIZE,
        ensures
            final(self).wf(),
            final(self)@ == old(self)@.push(byte),
    {
        let tail: usize = if self.head + self.len < BUF_SIZE {
            self.head + self.len
        } else {
            self.head + self.len - BUF_SIZE
        };
        self.data.set(tail, byte);
        self.len = self.len + 1;
        assert(self@ =~= old(self)@.push(byte));
    }

    /// Removes and returns the oldest byte.
    pub fn get(&mut self) -> (r: u8)
        requires
            old(self).wf(),
            old(self)@.len() > 0,
        ensures
            final(self).wf(),
            r == old(self)@[0],
            final(self)@ == old(self)@.drop_first(),
    {
        let r = self.data[self.head];
        self.head = if self.head + 1 < BUF_SIZE {
            self.head + 1
        } else {
            0
        };
        self.len = self.len - 1;
        assert(self@ =~= old(self)@.drop_first());
        r
    }
}

/// Bytes pushed into an empty buffer come back out in the order they went in,
/// unchanged, for every count up to the capacity, and leave it empty again.
pub proof fn lemma_fifo(pushed: Seq<u8>)
    requires
        pushed.len() <= BUF_SIZE,
    ensures
        pushes(Seq::empty(), pushed).len() <= BUF_SIZE,
        pops(pushes(Seq::empty(), pushed), pushed.len()).1 == pushed,
        pops(pushes(Seq::empty(), pushed), pushed.len()).0 == Seq::<u8>::empty(),
{
    lemma_pushes(Seq::empty(), pushed);
    assert(Seq::<u8>::empty() + pushed =~= pushed);
    lemma_pops(pushed, pushed.len());
    assert(pushed.skip(pushed.len() as int) =~= Seq::<u8>::empty());
    assert(pushed.take(pushed.len() as int) =~= pushed);
}

/// Contents after `put` of each byte of `bytes`, in order.
pub open spec fn pushes(q: Seq<u8>, bytes: Seq<u8>) -> Seq<u8>
    decreases bytes.len(),
{
    if bytes.len() == 0 {
        q
    } else {
        pushes(q.push(bytes[0]), bytes.drop_first())
    }
}

/// Contents after `n` calls of `get`, and the bytes those calls returned.
pub open spec fn pops(q: Seq<u8>, n: nat) -> (Seq<u8>, Seq<u8>)
    decreases n,
{
    if n == 0 || q.len() == 0 {
        (q, Seq::empty())
    } else {
        let rest = pops(q.drop_first(), (n - 1) as nat);
        (rest.0, seq![q[0]] + rest.1)
    }
}

proof fn lemma_pushes(q: Seq<u8>, bytes: Seq<u8>)
    ensures
        pushes(q, bytes) == q + bytes,
    decreases bytes.len(),
{
    if bytes.len() == 0 {
        assert(q + bytes =~= q);
    } else {
        lemma_pushes(q.push(bytes[0]), bytes.drop_first());
        assert(q.push(bytes[0]) + bytes.drop_first() =~= q + bytes);
    }
}

proof fn lemma_pops(q: Seq<u8>, n: nat)
    requires
        n <= q.len(),
    ensures
        pops(q, n).0 == q.skip(n as int),
        pops(q, n).1 == q.take(n as int),
    decreases n,
{
    if n == 0 {
        assert(q.skip(0) =~= q);
        assert(q.take(0) =~= Seq::<u8>::empty());
    } else {
        lemma_pops(q.drop_first(), (n - 1) as nat);
        assert(q.drop_first().skip(n - 1) =~= q.skip(n as int));
        assert(seq![q[0]] + q.drop_first().take(n - 1) =~= q.take(n as int));
    }
}

} // verus!
