use vstd::prelude::*;

verus! {

/// The three states a pipeline thread can be in.
#[derive(PartialEq, Eq, Structural, Debug, Clone, Copy)]
pub enum ThreadStateSpace {
    RUNNING,
    PAUSED,
    KILLED,
}

/// The number that stands for each state.
pub open spec fn state_code(s: ThreadStateSpace) -> u8 {
    match s {
        ThreadStateSpace::RUNNING => 0,
        ThreadStateSpace::PAUSED => 1,
        ThreadStateSpace::KILLED => 2,
    }
}

impl ThreadStateSpace {
    /// The number that stands for this state: 0 running, 1 paused, 2 killed.
    pub fn to_u8_ref(&self) -> (r: u8)
        ensures
            r == state_code(*self),
    {
        match self {
            ThreadStateSpace::RUNNING => 0,
            ThreadStateSpace::PAUSED => 1,
            ThreadStateSpace::KILLED => 2,
        }
    }

    /// The name of the state, as the state's display form writes it.
    pub fn to_string(&self) -> (r: &'static str)
        ensures
            *self == ThreadStateSpace::RUNNING ==> r@ == "RUNNING"@,
            *self == ThreadStateSpace::PAUSED ==> r@ == "PAUSED"@,
            *self == ThreadStateSpace::KILLED ==> r@ == "KILLED"@,
    {
        match self {
            ThreadStateSpace::RUNNING => "RUNNING",
            ThreadStateSpace::PAUSED => "PAUSED",
            ThreadStateSpace::KILLED => "KILLED",
        }
    }
}

/// Distinct states have distinct numbers, and every number is below 3.
pub proof fn lemma_state_code_injective(a: ThreadStateSpace, b: ThreadStateSpace)
    ensures
        state_code(a) == state_code(b) <==> a == b,
        state_code(a) < 3,
{
}

} // verus!
