use crate::pipeline_traits::Sharable;
use vstd::prelude::*;

verus! {

/// The shape of data a node received: one value, values reassembled from a
/// series, values gathered from several channels, or nothing (an
/// unconfigured input).
#[derive(Debug, Clone)]
pub enum ReceiveType<T: Sharable> {
    Single(T),
    Reassembled(Vec<T>),
    Multichannel(Vec<T>),
    Dummy,
}

impl<T: Sharable> ReceiveType<T> {
    /// The name of the variant.
    pub fn to_string(&self) -> (r: &'static str)
        ensures
            self is Single ==> r@ == "Single"@,
            self is Reassembled ==> r@ == "Reassembled"@,
            self is Multichannel ==> r@ == "Multichannel"@,
            self is Dummy ==> r@ == "Dummy"@,
    {
        match self {
            Self::Single(_) => "Single",
            Self::Reassembled(_) => "Reassembled",
            Self::Multichannel(_) => "Multichannel",
            Self::Dummy => "Dummy",
        }
    }
}

/// How a step's output is to be sent: one value per output channel
/// (decompose), each value in turn (series), one value several times
/// (repeat), or one value once (standard).
#[derive(Debug, Clone)]
pub enum ODFormat<T: Sharable> {
    Decompose(Vec<T>),
    Series(Vec<T>),
    Repeat(T, usize),
    Standard(T),
}

impl<T: Sharable> ODFormat<T> {
    /// The value of a standard output.
    pub fn unwrap_standard(self) -> (r: T)
        requires
            self is Standard,
        ensures
            r == self->Standard_0,
    {
        match self {
            ODFormat::Standard(x) => x,
            _ => vstd::pervasive::unreached(),
        }
    }
}

} // verus!
