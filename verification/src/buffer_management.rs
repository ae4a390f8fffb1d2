use crate::pipeline_traits::Sharable;
use vstd::prelude::*;

verus! {

/// A fixed-size block of values, moved in and out by swapping whole arrays.
pub struct DataBuffer<T: Sharable, const BSIZE: usize> {
    buffer: [T; BSIZE],
}

impl<T: Sharable, const BSIZE: usize> DataBuffer<T, BSIZE> {
    /// The values held.
    pub closed spec fn values(&self) -> Seq<T> {
        self.buffer@
    }

    /// A buffer of default values.
    pub fn new() -> (b: Self)
        ensures
            b.values().len() == BSIZE,
            forall|i: int| 0 <= i < BSIZE ==> call_ensures(T::default, (), #[trigger] b.values()[i]),
    {
        let d = T::default();
        let buffer = [d; BSIZE];
        assert(forall|i: int| 0 <= i < BSIZE ==> buffer@[i] == d);
        DataBuffer { buffer }
    }

    /// Mutable access to the values.
    pub fn read(&mut self) -> (r: &mut [T; BSIZE])
        ensures
            r@ == old(self).values(),
            final(self).values() == final(r)@,
    {
        &mut self.buffer
    }

    /// Moves the values into `output_buffer`, taking its values in exchange.
    pub fn move_to_array(&mut self, output_buffer: &mut [T; BSIZE])
        ensures
            final(output_buffer)@ == old(self).values(),
            final(self).values() == old(output_buffer)@,
    {
        core::mem::swap(&mut self.buffer, output_buffer);
    }

    /// Moves the values of `input_buffer` in, giving the held values in
    /// exchange.
    pub fn move_from_array(&mut self, input_buffer: &mut [T; BSIZE])
        ensures
            final(self).values() == old(input_buffer)@,
            final(input_buffer)@ == old(self).values(),
    {
        core::mem::swap(&mut self.buffer, input_buffer);
    }
}

} // verus!
