use crate::pipeline_traits::Sharable;
use vstd::arithmetic::div_mod::{lemma_fundamental_div_mod, lemma_fundamental_div_mod_converse};
use vstd::prelude::*;

verus! {

/// How a step's output is to be sent over the asynchronous channels: one value
/// per channel (decompose), each value in turn to every channel (series), or
/// one value to every channel (standard).
#[derive(Debug, Clone)]
pub enum ODFormat<T: Sharable> {
    Decompose(Vec<T>),
    Series(Vec<T>),
    Standard(T),
}

/// One round of a value over the channels: every running channel after the
/// first, in order, then the first, each getting `v`; `upto` bounds the
/// channels considered after the first.
pub open spec fn later_channels<T>(stopped: Seq<bool>, v: T, upto: int) -> Seq<(usize, T)>
    decreases upto,
{
    if upto <= 1 {
        Seq::empty()
    } else {
        let rest = later_channels(stopped, v, upto - 1);
        if !stopped[upto - 1] {
            rest.push(((upto - 1) as usize, v))
        } else {
            rest
        }
    }
}

/// The sends of one standard value: the running channels after the first,
/// then the first channel if it runs.
pub open spec fn standard_round<T>(stopped: Seq<bool>, v: T) -> Seq<(usize, T)> {
    let rest = later_channels(stopped, v, stopped.len() as int);
    if !stopped[0] {
        rest.push((0usize, v))
    } else {
        rest
    }
}

/// The sends of a decomposed output: value `i` to channel `i`, for the
/// running channels, in order.
pub open spec fn decompose_round<T>(stopped: Seq<bool>, vals: Seq<T>, upto: int) -> Seq<
    (usize, T),
>
    decreases upto,
{
    if upto <= 0 {
        Seq::empty()
    } else {
        let rest = decompose_round(stopped, vals, upto - 1);
        if !stopped[upto - 1] {
            rest.push(((upto - 1) as usize, vals[upto - 1]))
        } else {
            rest
        }
    }
}

/// The sends of a series: one standard round per value, in order.
pub open spec fn series_rounds<T>(stopped: Seq<bool>, vals: Seq<T>, upto: int) -> Seq<(usize, T)>
    decreases upto,
{
    if upto <= 0 {
        Seq::empty()
    } else {
        series_rounds(stopped, vals, upto - 1) + standard_round(stopped, vals[upto - 1])
    }
}

/// The sends an output makes, given which channels are stopped.
pub open spec fn send_plan_of<T: Sharable>(out: ODFormat<T>, stopped: Seq<bool>) -> Seq<(usize, T)> {
    match out {
        ODFormat::Decompose(v) => decompose_round(stopped, v@, stopped.len() as int),
        ODFormat::Series(v) => series_rounds(stopped, v@, v@.len() as int),
        ODFormat::Standard(v) => standard_round(stopped, v),
    }
}

impl<T: Sharable> ODFormat<T> {
    /// The value of a standard output.
    pub fn unwrap_standard(self) -> (r: T)
        requires
            self is Standard,
        ensures
            r == self->Standard_0,
    {
        match self {
            ODFormat::Standard(x) => x,
            _ => vstd::pervasive::unreached(),
        }
    }

    /// The sends this output makes over channels of which `stopped` tells
    /// which are stopped: (channel index, value) pairs in the order in which
    /// they are to be made. Stopped channels get nothing.
    pub fn send_plan(self, stopped: &Vec<bool>) -> (r: Vec<(usize, T)>)
        requires
            self matches ODFormat::Decompose(v) ==> v@.len() == stopped@.len(),
            self is Standard ==> stopped@.len() > 0,
            self matches ODFormat::Series(v) ==> (v@.len() == 0 || stopped@.len() > 0),
        ensures
            r@ == send_plan_of(self, stopped@),
    {
        match self {
            ODFormat::Decompose(values) => {
                let mut plan: Vec<(usize, T)> = Vec::new();
                let mut i: usize = 0;
                while i < stopped.len()
                    invariant
                        i <= stopped@.len(),
                        values@.len() == stopped@.len(),
                        plan@ == decompose_round(stopped@, values@, i as int),
                    decreases stopped@.len() - i,
                {
                    if !stopped[i] {
                        plan.push((i, values[i]));
                    }
                    i = i + 1;
                }
                plan
            },
            ODFormat::Series(values) => {
                let mut plan: Vec<(usize, T)> = Vec::new();
                let mut p: usize = 0;
                while p < values.len()
                    invariant
                        p <= values@.len(),
                        values@.len() == 0 || stopped@.len() > 0,
                        plan@ == series_rounds(stopped@, values@, p as int),
                    decreases values@.len() - p,
                {
                    let mut round = standard_round_of(values[p], stopped);
                    plan.append(&mut round);
                    p = p + 1;
                }
                plan
            },
            ODFormat::Standard(value) => standard_round_of(value, stopped),
        }
    }
}

/// The sends of one standard value.
fn standard_round_of<T: Copy>(value: T, stopped: &Vec<bool>) -> (r: Vec<(usize, T)>)
    requires
        stopped@.len() > 0,
    ensures
        r@ == standard_round(stopped@, value),
{
    let mut plan: Vec<(usize, T)> = Vec::new();
    let mut i: usize = 1;
    while i < stopped.len()
        invariant
            1 <= i <= stopped@.len(),
            plan@ == later_channels(stopped@, value, i as int),
        decreases stopped@.len() - i,
    {
        if !stopped[i] {
            plan.push((i, value));
        }
        i = i + 1;
    }
    if !stopped[0] {
        plan.push((0, value));
    }
    plan
}

/// The later channels of a round are the running channels from 1 up to
/// `upto`, each once, in increasing order, each with the round's value.
proof fn lemma_later_channels_shape<T>(stopped: Seq<bool>, v: T, upto: int)
    requires
        upto <= stopped.len(),
        stopped.len() <= usize::MAX,
    ensures
        forall|i: int|
            0 <= i < later_channels(stopped, v, upto).len() ==> {
                &&& (#[trigger] later_channels(stopped, v, upto)[i]).1 == v
                &&& 1 <= later_channels(stopped, v, upto)[i].0 < upto
                &&& !stopped[later_channels(stopped, v, upto)[i].0 as int]
            },
        forall|i: int, j: int|
            0 <= i < j < later_channels(stopped, v, upto).len() ==> (#[trigger] later_channels(
                stopped,
                v,
                upto,
            )[i]).0 < (#[trigger] later_channels(stopped, v, upto)[j]).0,
        forall|k: int|
            1 <= k < upto && !stopped[k] ==> exists|i: int|
                0 <= i < later_channels(stopped, v, upto).len() && (#[trigger] later_channels(
                    stopped,
                    v,
                    upto,
                )[i]).0 == k,
    decreases upto,
{
    if upto > 1 {
        lemma_later_channels_shape(stopped, v, upto - 1);
        let rest = later_channels(stopped, v, upto - 1);
        let plan = later_channels(stopped, v, upto);
        if !stopped[upto - 1] {
            assert(plan == rest.push(((upto - 1) as usize, v)));
            assert forall|k: int| 1 <= k < upto && !stopped[k] implies exists|i: int|
                0 <= i < plan.len() && (#[trigger] plan[i]).0 == k by {
                if k == upto - 1 {
                    assert(plan[rest.len() as int].0 == k);
                } else {
                    let i = choose|i: int| 0 <= i < rest.len() && (#[trigger] rest[i]).0 == k;
                    assert(plan[i] == rest[i]);
                }
            }
        } else {
            assert(plan == rest);
        }
    }
}

/// A standard output reaches every running channel exactly once and no
/// stopped channel: each send carries the value to a running channel, no
/// two sends go to the same channel, and every running channel gets a send.
pub proof fn lemma_standard_output_reaches_each_running_channel_once<T: Sharable>(
    stopped: Seq<bool>,
    v: T,
)
    requires
        0 < stopped.len() <= usize::MAX,
    ensures
        forall|i: int|
            0 <= i < send_plan_of(ODFormat::Standard(v), stopped).len() ==> {
                &&& (#[trigger] send_plan_of(ODFormat::Standard(v), stopped)[i]).1 == v
                &&& send_plan_of(ODFormat::Standard(v), stopped)[i].0 < stopped.len()
                &&& !stopped[send_plan_of(ODFormat::Standard(v), stopped)[i].0 as int]
            },
        forall|i: int, j: int|
            0 <= i < j < send_plan_of(ODFormat::Standard(v), stopped).len() ==> (
            #[trigger] send_plan_of(ODFormat::Standard(v), stopped)[i]).0 != (
            #[trigger] send_plan_of(ODFormat::Standard(v), stopped)[j]).0,
        forall|k: int|
            0 <= k < stopped.len() && !stopped[k] ==> exists|i: int|
                0 <= i < send_plan_of(ODFormat::Standard(v), stopped).len() && (
                #[trigger] send_plan_of(ODFormat::Standard(v), stopped)[i]).0 == k,
{
    let n = stopped.len() as int;
    lemma_later_channels_shape(stopped, v, n);
    let rest = later_channels(stopped, v, n);
    let plan = send_plan_of(ODFormat::Standard(v), stopped);
    assert(plan == standard_round(stopped, v));
    if !stopped[0] {
        assert(plan == rest.push((0usize, v)));
        assert forall|k: int| 0 <= k < n && !stopped[k] implies exists|i: int|
            0 <= i < plan.len() && (#[trigger] plan[i]).0 == k by {
            if k == 0 {
                assert(plan[rest.len() as int].0 == k);
            } else {
                let i = choose|i: int| 0 <= i < rest.len() && (#[trigger] rest[i]).0 == k;
                assert(plan[i] == rest[i]);
            }
        }
        assert forall|i: int, j: int| 0 <= i < j < plan.len() implies (#[trigger] plan[i]).0 != (
        #[trigger] plan[j]).0 by {
            if j == rest.len() {
                assert(plan[i] == rest[i]);
            } else {
                assert(plan[i] == rest[i]);
                assert(plan[j] == rest[j]);
            }
        }
        assert forall|i: int| 0 <= i < plan.len() implies {
            &&& (#[trigger] plan[i]).1 == v
            &&& plan[i].0 < n
            &&& !stopped[plan[i].0 as int]
        } by {
            if i < rest.len() {
                assert(plan[i] == rest[i]);
            }
        }
    } else {
        assert(plan == rest);
    }
}

/// The sends of a decomposed output, up to `upto`, are value `k` to channel
/// `k` for the running channels below `upto`, in increasing order.
proof fn lemma_decompose_round_shape<T>(stopped: Seq<bool>, vals: Seq<T>, upto: int)
    requires
        upto <= stopped.len(),
        stopped.len() <= usize::MAX,
        upto <= vals.len(),
    ensures
        forall|i: int|
            0 <= i < decompose_round(stopped, vals, upto).len() ==> {
                &&& 0 <= (#[trigger] decompose_round(stopped, vals, upto)[i]).0 < upto
                &&& !stopped[decompose_round(stopped, vals, upto)[i].0 as int]
                &&& decompose_round(stopped, vals, upto)[i].1 == vals[decompose_round(
                    stopped,
                    vals,
                    upto,
                )[i].0 as int]
            },
        forall|i: int, j: int|
            0 <= i < j < decompose_round(stopped, vals, upto).len() ==> (
            #[trigger] decompose_round(stopped, vals, upto)[i]).0 < (#[trigger] decompose_round(
                stopped,
                vals,
                upto,
            )[j]).0,
        forall|k: int|
            0 <= k < upto && !stopped[k] ==> exists|i: int|
                0 <= i < decompose_round(stopped, vals, upto).len() && (
                #[trigger] decompose_round(stopped, vals, upto)[i]).0 == k,
    decreases upto,
{
    if upto > 0 {
        lemma_decompose_round_shape(stopped, vals, upto - 1);
        let rest = decompose_round(stopped, vals, upto - 1);
        let plan = decompose_round(stopped, vals, upto);
        if !stopped[upto - 1] {
            assert(plan == rest.push(((upto - 1) as usize, vals[upto - 1])));
            assert forall|k: int| 0 <= k < upto && !stopped[k] implies exists|i: int|
                0 <= i < plan.len() && (#[trigger] plan[i]).0 == k by {
                if k == upto - 1 {
                    assert(plan[rest.len() as int].0 == k);
                } else {
                    let i = choose|i: int| 0 <= i < rest.len() && (#[trigger] rest[i]).0 == k;
                    assert(plan[i] == rest[i]);
                }
            }
        } else {
            assert(plan == rest);
        }
    }
}

/// A decomposed output gives value `k` to channel `k`, once, for every
/// running channel, and nothing to a stopped one.
pub proof fn lemma_decomposed_output_gives_each_channel_its_value<T: Sharable>(
    stopped: Seq<bool>,
    vals: Seq<T>,
    out: ODFormat<T>,
)
    requires
        out matches ODFormat::Decompose(v) && v@ == vals,
        vals.len() == stopped.len(),
        stopped.len() <= usize::MAX,
    ensures
        forall|i: int|
            0 <= i < send_plan_of(out, stopped).len() ==> {
                &&& (#[trigger] send_plan_of(out, stopped)[i]).0 < stopped.len()
                &&& !stopped[send_plan_of(out, stopped)[i].0 as int]
                &&& send_plan_of(out, stopped)[i].1 == vals[send_plan_of(out, stopped)[i].0 as int]
            },
        forall|i: int, j: int|
            0 <= i < j < send_plan_of(out, stopped).len() ==> (#[trigger] send_plan_of(
                out,
                stopped,
            )[i]).0 != (#[trigger] send_plan_of(out, stopped)[j]).0,
        forall|k: int|
            0 <= k < stopped.len() && !stopped[k] ==> exists|i: int|
                0 <= i < send_plan_of(out, stopped).len() && (#[trigger] send_plan_of(
                    out,
                    stopped,
                )[i]).0 == k,
{
    lemma_decompose_round_shape(stopped, vals, stopped.len() as int);
    assert(send_plan_of(out, stopped) == decompose_round(stopped, vals, stopped.len() as int));
}

/// How many of the channels below `upto` are running.
pub open spec fn running_count(stopped: Seq<bool>, upto: int) -> nat
    decreases upto,
{
    if upto <= 0 {
        0
    } else {
        running_count(stopped, upto - 1) + if !stopped[upto - 1] {
            1nat
        } else {
            0nat
        }
    }
}

/// The later channels of a round are as many as the running channels from 1
/// up to `upto`.
proof fn lemma_later_channels_len<T>(stopped: Seq<bool>, v: T, upto: int)
    requires
        1 <= upto <= stopped.len(),
    ensures
        later_channels(stopped, v, upto).len() + (if !stopped[0] {
            1int
        } else {
            0int
        }) == running_count(stopped, upto),
    decreases upto,
{
    if upto > 1 {
        lemma_later_channels_len(stopped, v, upto - 1);
    } else {
        assert(running_count(stopped, 0) == 0);
    }
}

/// A series output goes out value by value: the sends fall into one block
/// per value of the series, in the order of the values, each block as long
/// as there are running channels. Every send of block `q` carries value `q`
/// to a running channel, no channel gets two sends of one block, and no
/// stopped channel gets anything. So each running channel receives every
/// value exactly once, in order.
pub proof fn lemma_series_output_reaches_each_running_channel_once_per_value<T: Sharable>(
    stopped: Seq<bool>,
    vals: Seq<T>,
    out: ODFormat<T>,
)
    requires
        out matches ODFormat::Series(v) && v@ == vals,
        0 < stopped.len() <= usize::MAX,
    ensures
        send_plan_of(out, stopped).len() == vals.len() * running_count(stopped, stopped.len() as int),
        forall|i: int|
            0 <= i < send_plan_of(out, stopped).len() ==> {
                &&& (#[trigger] send_plan_of(out, stopped)[i]).0 < stopped.len()
                &&& !stopped[send_plan_of(out, stopped)[i].0 as int]
                &&& send_plan_of(out, stopped)[i].1 == vals[i / (running_count(
                    stopped,
                    stopped.len() as int,
                ) as int)]
            },
        forall|i: int, j: int|
            0 <= i < j < send_plan_of(out, stopped).len() && i / (running_count(
                stopped,
                stopped.len() as int,
            ) as int) == j / (running_count(stopped, stopped.len() as int) as int) ==> (
            #[trigger] send_plan_of(out, stopped)[i]).0 != (#[trigger] send_plan_of(
                out,
                stopped,
            )[j]).0,
{
    lemma_series_rounds_shape(stopped, vals, vals.len() as int);
    assert(send_plan_of(out, stopped) == series_rounds(stopped, vals, vals.len() as int));
}

/// The first `p` rounds of a series, block by block.
proof fn lemma_series_rounds_shape<T: Sharable>(stopped: Seq<bool>, vals: Seq<T>, p: int)
    requires
        0 <= p <= vals.len(),
        0 < stopped.len() <= usize::MAX,
    ensures
        series_rounds(stopped, vals, p).len() == p * running_count(stopped, stopped.len() as int),
        forall|i: int|
            0 <= i < series_rounds(stopped, vals, p).len() ==> {
                &&& (#[trigger] series_rounds(stopped, vals, p)[i]).0 < stopped.len()
                &&& !stopped[series_rounds(stopped, vals, p)[i].0 as int]
                &&& series_rounds(stopped, vals, p)[i].1 == vals[i / (running_count(
                    stopped,
                    stopped.len() as int,
                ) as int)]
            },
        forall|i: int, j: int|
            0 <= i < j < series_rounds(stopped, vals, p).len() && i / (running_count(
                stopped,
                stopped.len() as int,
            ) as int) == j / (running_count(stopped, stopped.len() as int) as int) ==> (
            #[trigger] series_rounds(stopped, vals, p)[i]).0 != (#[trigger] series_rounds(
                stopped,
                vals,
                p,
            )[j]).0,
    decreases p,
{
    let n = stopped.len() as int;
    let k = running_count(stopped, n) as int;
    if p == 0 {
        assert(p * k == 0) by (nonlinear_arith)
            requires
                p == 0,
        ;
    } else {
        let m = p - 1;
        lemma_series_rounds_shape(stopped, vals, m);
        let prev = series_rounds(stopped, vals, m);
        let v = vals[m];
        let round = standard_round(stopped, v);
        let plan = series_rounds(stopped, vals, p);
        assert(plan == prev + round);
        lemma_later_channels_len(stopped, v, n);
        assert(round.len() == k);
        lemma_standard_output_reaches_each_running_channel_once(stopped, v);
        assert(send_plan_of(ODFormat::Standard(v), stopped) == round);
        assert(prev.len() == m * k);
        assert(m * k + k == p * k) by (nonlinear_arith)
            requires
                m == p - 1,
        ;
        assert forall|i: int| 0 <= i < plan.len() implies {
            &&& (#[trigger] plan[i]).0 < stopped.len()
            &&& !stopped[plan[i].0 as int]
            &&& plan[i].1 == vals[i / k]
        } by {
            if i < prev.len() {
                assert(plan[i] == prev[i]);
            } else {
                let j = i - m * k;
                assert(plan[i] == round[j]);
                assert(round[j].1 == v);
                lemma_fundamental_div_mod_converse(i, k, m, j);
            }
        }
        assert forall|i: int, j: int|
            0 <= i < j < plan.len() && i / k == j / k implies (#[trigger] plan[i]).0 != (
            #[trigger] plan[j]).0 by {
            if j < prev.len() {
                assert(plan[i] == prev[i] && plan[j] == prev[j]);
            } else if i < prev.len() {
                let jj = j - m * k;
                lemma_fundamental_div_mod_converse(j, k, m, jj);
                lemma_fundamental_div_mod(i, k);
                assert(i / k < m) by (nonlinear_arith)
                    requires
                        i == k * (i / k) + i % k,
                        0 <= i % k,
                        i < m * k,
                        k > 0,
                ;
            } else {
                assert(plan[i] == round[i - m * k] && plan[j] == round[j - m * k]);
            }
        }
    }
}

} // verus!
