use crate::pipeline_traits::Sharable;
use vstd::prelude::*;

verus! {

/// A single value travelling through a channel, moved by swapping rather than
/// by allocation.
#[derive(Copy, Clone)]
pub struct DataWrapper<T: Sharable> {
    value: T,
}

impl<T: Sharable> DataWrapper<T> {
    /// The value held.
    pub closed spec fn value(self) -> T {
        self.value
    }

    /// A wrapper holding the default value of `T`.
    pub fn new() -> (w: Self)
        ensures
            call_ensures(T::default, (), w.value()),
    {
        DataWrapper { value: T::default() }
    }

    /// A wrapper holding `value`.
    pub fn new_with_value(value: T) -> (w: Self)
        ensures
            w.value() == value,
    {
        DataWrapper { value }
    }

    /// Mutable access to the held value.
    pub fn read(&mut self) -> (r: &mut T)
        ensures
            *r == old(self).value(),
            final(self).value() == *final(r),
    {
        &mut self.value
    }

    /// Exchanges the held value with `other`.
    pub fn swap(&mut self, other: &mut T)
        ensures
            final(self).value() == *old(other),
            *final(other) == old(self).value(),
    {
        core::mem::swap(&mut self.value, other);
    }

    /// Exchanges the held values of two wrappers.
    pub fn swap_st(&mut self, other: &mut Self)
        ensures
            final(self).value() == old(other).value(),
            final(other).value() == old(self).value(),
    {
        core::mem::swap(&mut self.value, &mut other.value);
    }

    /// Copies the held value into every wrapper of `outputs`.
    pub fn copy_to_many<const N: usize>(&self, outputs: &mut [Self; N])
        ensures
            forall|i: int| 0 <= i < N ==> (#[trigger] final(outputs)@[i]).value() == self.value(),
    {
        let mut i: usize = 0;
        while i < N
            invariant
                0 <= i <= N,
                forall|j: int| 0 <= j < i ==> (#[trigger] outputs@[j]).value() == self.value(),
            decreases N - i,
        {
            outputs[i] = DataWrapper { value: self.value };
            i = i + 1;
        }
    }

    /// Copies the held value into `output`.
    pub fn copy_to(&self, output: &mut Self)
        ensures
            final(output).value() == self.value(),
    {
        output.value = self.value;
    }
}

/// A fixed-size array of values that travels as one unit.
#[derive(Copy, Clone)]
pub struct BufferArray<T: Sharable, const N: usize> {
    val: [T; N],
}

impl<T: Sharable, const N: usize> BufferArray<T, N> {
    /// The values held.
    pub closed spec fn values(self) -> Seq<T> {
        self.val@
    }

    /// An array of `N` default values.
    pub fn new() -> (b: Self)
        ensures
            b.values().len() == N,
            forall|i: int| 0 <= i < N ==> call_ensures(T::default, (), #[trigger] b.values()[i]),
    {
        let d = T::default();
        let val = [d; N];
        assert(forall|i: int| 0 <= i < N ==> val@[i] == d);
        BufferArray { val }
    }

    /// An array holding `value`.
    pub fn new_with_value(value: [T; N]) -> (b: Self)
        ensures
            b.values() == value@,
    {
        BufferArray { val: value }
    }

    /// Mutable access to the values.
    pub fn read_mut(&mut self) -> (r: &mut [T; N])
        ensures
            r@ == old(self).values(),
            final(self).values() == final(r)@,
    {
        &mut self.val
    }

    /// Shared access to the values.
    pub fn read(&self) -> (r: &[T; N])
        ensures
            r@ == self.values(),
    {
        &self.val
    }
}

impl<T: Sharable, const N: usize> Default for BufferArray<T, N> {
    fn default() -> (b: Self)
        ensures
            b.values().len() == N,
            forall|i: int| 0 <= i < N ==> call_ensures(T::default, (), #[trigger] b.values()[i]),
    {
        Self::new()
    }
}

} // verus!
