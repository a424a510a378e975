//! The sample buffer: an append-only, ordered accumulation of samples.
use vstd::prelude::*;

verus! {

/// Samples in arrival order. Elements are only ever appended, never removed
/// or reordered.
pub struct SampleBuffer<T> {
    samples: Vec<T>,
}

impl<T: Copy> View for SampleBuffer<T> {
    type V = Seq<T>;

    closed spec fn view(&self) -> Seq<T> {
        self.samples@
    }
}

impl<T: Copy> SampleBuffer<T> {
    /// An empty buffer.
    pub fn new() -> (r: Self)
        ensures
            r@ == Seq::<T>::empty(),
    {
        SampleBuffer { samples: Vec::new() }
    }

    /// Appends `block` at the end, keeping the order within the block.
    pub fn append(&mut self, block: &[T])
        ensures
            final(self)@ == old(self)@ + block@,
    {
        let mut i: usize = 0;
        while i < block.len()
            invariant
                i <= block@.len(),
                self@ == old(self)@ + block@.subrange(0, i as int),
            decreases block@.len() - i,
        {
            self.samples.push(block[i]);
            i = i + 1;
            proof {
                assert(block@.subrange(0, i as int) == block@.subrange(0, i - 1) + seq![block@[i - 1]]);
            }
        }
        proof {
            assert(block@.subrange(0, block@.len() as int) == block@);
        }
    }

    /// The number of samples held.
    pub fn len(&self) -> (r: usize)
        ensures
            r == self@.len(),
    {
        self.samples.len()
    }

    /// A copy of the current contents, in arrival order.
    pub fn snapshot(&self) -> (r: Vec<T>)
        ensures
            r@ == self@,
    {
        let mut out: Vec<T> = Vec::new();
        let mut i: usize = 0;
        while i < self.samples.len()
            invariant
                i <= self@.len(),
                out@ == self@.subrange(0, i as int),
            decreases self@.len() - i,
        {
            out.push(self.samples[i]);
            i = i + 1;
            proof {
                assert(out@ == self@.subrange(0, i as int));
            }
        }
        out
    }
}

/// The samples of `blocks`, concatenated in order.
pub open spec fn concat_blocks<T>(blocks: Seq<Seq<T>>) -> Seq<T>
    decreases blocks.len(),
{
    if blocks.len() == 0 {
        Seq::empty()
    } else {
        concat_blocks(blocks.drop_last()) + blocks.last()
    }
}

/// The sum of the lengths of `blocks`.
pub open spec fn total_len<T>(blocks: Seq<Seq<T>>) -> nat
    decreases blocks.len(),
{
    if blocks.len() == 0 {
        0
    } else {
        total_len(blocks.drop_last()) + blocks.last().len()
    }
}

/// The contents after appending each of `blocks`, in order, to `start`, as
/// `SampleBuffer::append` describes one append.
pub open spec fn after_appends<T>(start: Seq<T>, blocks: Seq<Seq<T>>) -> Seq<T>
    decreases blocks.len(),
{
    if blocks.len() == 0 {
        start
    } else {
        after_appends(start, blocks.drop_last()) + blocks.last()
    }
}

/// Appending any sequence of blocks to a buffer holding `start` leaves
/// `start` followed by the concatenation of the blocks in append order; the
/// length grows by the sum of the block lengths.
pub proof fn lemma_append_order<T>(start: Seq<T>, blocks: Seq<Seq<T>>)
    ensures
        after_appends(start, blocks) == start + concat_blocks(blocks),
        after_appends(start, blocks).len() == start.len() + total_len(blocks),
    decreases blocks.len(),
{
    if blocks.len() > 0 {
        lemma_append_order(start, blocks.drop_last());
        assert(start + concat_blocks(blocks.drop_last()) + blocks.last()
            == start + (concat_blocks(blocks.drop_last()) + blocks.last()));
    } else {
        assert(start + Seq::<T>::empty() == start);
    }
}

} // verus!
