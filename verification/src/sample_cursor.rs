use vstd::prelude::*;

verus! {

/// Hands out a fixed list of samples one at a time, in order.
pub struct SampleCursor<T> {
    samples: Vec<T>,
    index: usize,
}

impl<T: Copy> SampleCursor<T> {
    pub closed spec fn spec_samples(&self) -> Seq<T> {
        self.samples@
    }

    pub closed spec fn spec_index(&self) -> usize {
        self.index
    }

    /// The samples not handed out yet.
    pub open spec fn spec_remaining(&self) -> Seq<T> {
        self.spec_samples().skip(self.spec_index() as int)
    }

    /// A cursor at the first of `samples`.
    pub fn new(samples: Vec<T>) -> (c: Self)
        ensures
            c.spec_samples() == samples@,
            c.spec_index() == 0,
            c.spec_remaining() == samples@,
    {
        let c = SampleCursor { samples, index: 0 };
        assert(c.spec_remaining() =~= samples@);
        c
    }

    /// The next sample, or `None` once all have been handed out.
    pub fn next_sample(&mut self) -> (r: Option<T>)
        ensures
            final(self).spec_samples() == old(self).spec_samples(),
            old(self).spec_index() < old(self).spec_samples().len() ==> {
                &&& r == Some(old(self).spec_samples()[old(self).spec_index() as int])
                &&& final(self).spec_index() == old(self).spec_index() + 1
            },
            old(self).spec_index() >= old(self).spec_samples().len() ==> {
                &&& r is None
                &&& final(self).spec_index() == old(self).spec_index()
            },
    {
        if self.index < self.samples.len() {
            let s = self.samples[self.index];
            self.index = self.index + 1;
            Some(s)
        } else {
            None
        }
    }

    /// How many samples are left to hand out.
    pub fn remaining_len(&self) -> (r: usize)
        ensures
            r == if self.spec_index() <= self.spec_samples().len() {
                self.spec_samples().len() - self.spec_index()
            } else {
                0
            },
    {
        self.samples.len().saturating_sub(self.index)
    }
}

/// Taking one sample hands out the first remaining one and leaves the rest:
/// the samples come out in their order, each once.
pub proof fn lemma_next_sample_takes_the_first_remaining<T: Copy>(
    samples: Seq<T>,
    index: usize,
)
    requires
        index < samples.len(),
    ensures
        samples.skip(index as int)[0] == samples[index as int],
        samples.skip(index as int).drop_first() == samples.skip(index + 1),
{
    assert(samples.skip(index as int).drop_first() =~= samples.skip(index + 1));
}

} // verus!
