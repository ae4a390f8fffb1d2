use crate::interfaces::ODFormat;
use crate::pipeline_traits::Sharable;
use std::sync::mpsc::SyncSender;
use vstd::prelude::*;

verus! {

/// The bounded sending end of a `std` channel.
#[verifier::external_type_specification]
#[verifier::external_body]
#[verifier::reject_recursive_types(T)]
pub struct ExSyncSender<T>(SyncSender<T>);

/// A value that could not be sent because the receiving end is gone.
#[derive(PartialEq, Eq, Debug, Clone, Copy)]
pub struct SendError<T>(pub T);

/// `std::sync::mpsc::SyncSender::send`: waits for room in the channel and
/// hands it `value`; where the receiving end is gone, fails and gives the
/// value back. Whether it succeeds depends on the receiving thread, so the
/// contract says no more than that a failure returns the value sent.
#[verifier::external_body]
pub(crate) fn channel_send<T>(sender: &SyncSender<T>, value: T) -> (r: Result<(), T>)
    ensures
        r matches Err(v) ==> v == value,
{
    match sender.send(value) {
        Ok(()) => Ok(()),
        Err(e) => Err(e.0),
    }
}

/// Whether `made` are the sends of one round of the plan `round`: the
/// (channel, value) pairs of the round in order, each with whether the
/// channel took it, as far as the first failure, which ends the round.
pub open spec fn round_made<T>(round: Seq<(usize, T)>, made: Seq<(usize, T, bool)>) -> bool {
    &&& made.len() <= round.len()
    &&& forall|i: int|
        #![trigger made[i]]
        #![trigger round[i]]
        0 <= i < made.len() ==> made[i].0 == round[i].0 && made[i].1 == round[i].1
    &&& forall|i: int| 0 <= i < made.len() - 1 ==> (#[trigger] made[i]).2
    &&& made.len() < round.len() ==> made.len() > 0 && !made.last().2
}

/// Whether `made` holds, round by round, the sends of the plan `rounds`.
pub open spec fn rounds_made<T>(rounds: Seq<Seq<(usize, T)>>, made: Seq<Seq<(usize, T, bool)>>) -> bool {
    &&& made.len() == rounds.len()
    &&& forall|k: int|
        #![trigger rounds[k]]
        #![trigger made[k]]
        0 <= k < rounds.len() ==> round_made(rounds[k], made[k])
}

/// Sending stops only at a failure: where every send made was taken, every
/// round of the plan was made in full, pair for pair.
pub proof fn lemma_no_failure_sends_whole_plan<T>(
    rounds: Seq<Seq<(usize, T)>>,
    made: Seq<Seq<(usize, T, bool)>>,
)
    requires
        rounds_made(rounds, made),
        forall|k: int, i: int| 0 <= k < made.len() && 0 <= i < made[k].len() ==> (#[trigger] made[k][i]).2,
    ensures
        forall|k: int| 0 <= k < rounds.len() ==> (#[trigger] made[k]).len() == rounds[k].len(),
        forall|k: int, i: int|
            0 <= k < rounds.len() && 0 <= i < rounds[k].len() ==> (#[trigger] made[k][i]).0
                == rounds[k][i].0 && made[k][i].1 == rounds[k][i].1,
{
    assert forall|k: int| 0 <= k < rounds.len() implies (#[trigger] made[k]).len() == rounds[k].len() by {
        assert(round_made(rounds[k], made[k]));
        if made[k].len() < rounds[k].len() {
            assert(made[k][made[k].len() - 1].2);
        }
    }
    assert forall|k: int, i: int|
        0 <= k < rounds.len() && 0 <= i < rounds[k].len() implies (#[trigger] made[k][i]).0
            == rounds[k][i].0 && made[k][i].1 == rounds[k][i].1 by {
        assert(round_made(rounds[k], made[k]));
        assert(made[k].len() == rounds[k].len());
    }
}

/// All sends of `made`, in the order they were made.
pub open spec fn sends_made<T>(made: Seq<Seq<(usize, T, bool)>>) -> Seq<(usize, T, bool)>
    decreases made.len(),
{
    if made.len() == 0 {
        Seq::empty()
    } else {
        sends_made(made.drop_last()) + made.last()
    }
}

/// The outcome of a series of sends: that of the last send made, success
/// where none was made.
pub open spec fn outcome_of<T>(sends: Seq<(usize, T, bool)>) -> Result<(), SendError<T>> {
    if sends.len() == 0 || sends.last().2 {
        Ok(())
    } else {
        Err(SendError(sends.last().1))
    }
}

/// The plan of an output sent into the one channel `channel`, as one round:
/// a standard value once, a repeated value the given number of times, a
/// series value by value; a decomposed output is not sent at all.
pub open spec fn single_plan<T: Sharable>(data: ODFormat<T>, channel: usize) -> Seq<Seq<(usize, T)>> {
    match data {
        ODFormat::Standard(v) => seq![seq![(channel, v)]],
        ODFormat::Repeat(v, n) => seq![Seq::new(n as nat, |i: int| (channel, v))],
        ODFormat::Series(vs) => seq![vs@.map_values(|v: T| (channel, v))],
        ODFormat::Decompose(_) => Seq::empty(),
    }
}

/// One round of `v` over channels `0..n`, in order.
pub open spec fn fan_round<T>(v: T, n: nat) -> Seq<(usize, T)> {
    Seq::new(n, |i: int| (i as usize, v))
}

/// The plan of an output sent into channels `0..n`: a standard value into
/// each channel in one round; value i of a decomposed output into channel i
/// in one round, as far as both go; a series in one round per value; a
/// repeated value in one round per repetition.
pub open spec fn multi_plan<T: Sharable>(data: ODFormat<T>, n: nat) -> Seq<Seq<(usize, T)>> {
    match data {
        ODFormat::Standard(v) => seq![fan_round(v, n)],
        ODFormat::Decompose(vs) => seq![
            Seq::new(
                if vs@.len() < n {
                    vs@.len()
                } else {
                    n
                },
                |i: int| (i as usize, vs@[i]),
            ),
        ],
        ODFormat::Series(vs) => Seq::new(vs@.len(), |p: int| fan_round(vs@[p], n)),
        ODFormat::Repeat(v, r) => Seq::new(r as nat, |p: int| fan_round(v, n)),
    }
}

/// The plan held by rounds of exec pairs.
pub open spec fn rounds_view<T>(rounds: Seq<Vec<(usize, T)>>) -> Seq<Seq<(usize, T)>> {
    rounds.map_values(|round: Vec<(usize, T)>| round@)
}

/// Makes the sends of the plan `rounds` into `senders`, round by round:
/// each round in order, a failure ending its round; the outcome is that of
/// the last send made. Also gives the sends made, round by round.
pub(crate) fn send_rounds<T: Copy>(senders: &Vec<SyncSender<T>>, rounds: &Vec<Vec<(usize, T)>>) -> (r: (
    Result<(), SendError<T>>,
    Ghost<Seq<Seq<(usize, T, bool)>>>,
))
    requires
        forall|k: int, i: int|
            0 <= k < rounds@.len() && 0 <= i < rounds@[k]@.len() ==> (#[trigger] rounds@[k]@[i]).0
                < senders@.len(),
    ensures
        rounds_made(rounds_view(rounds@), r.1@),
        r.0 == outcome_of(sends_made(r.1@)),
{
    let mut result: Result<(), SendError<T>> = Ok(());
    let ghost mut made: Seq<Seq<(usize, T, bool)>> = Seq::empty();
    let mut k: usize = 0;
    while k < rounds.len()
        invariant
            k <= rounds@.len(),
            made.len() == k,
            forall|j: int| 0 <= j < k ==> round_made(#[trigger] rounds_view(rounds@)[j], made[j]),
            result == outcome_of(sends_made(made)),
            forall|kk: int, i: int|
                0 <= kk < rounds@.len() && 0 <= i < rounds@[kk]@.len() ==> (#[trigger] rounds@[kk]@[i]).0
                    < senders@.len(),
        decreases rounds@.len() - k,
    {
        let round = &rounds[k];
        let ghost plan = round@;
        let ghost mut cur: Seq<(usize, T, bool)> = Seq::empty();
        let mut i: usize = 0;
        let mut keep_going = true;
        while i < round.len() && keep_going
            invariant
                plan == round@,
                plan == rounds_view(rounds@)[k as int],
                i <= plan.len(),
                cur.len() == i,
                forall|j: int| 0 <= j < i ==> (#[trigger] cur[j]).0 == plan[j].0 && cur[j].1 == plan[j].1,
                forall|j: int| 0 <= j < i - 1 ==> (#[trigger] cur[j]).2,
                keep_going == (i == 0 || cur.last().2),
                result == outcome_of(sends_made(made) + cur),
                forall|j: int| 0 <= j < plan.len() ==> (#[trigger] plan[j]).0 < senders@.len(),
            decreases plan.len() - i,
        {
            let (channel, value) = round[i];
            let sent = channel_send(&senders[channel], value);
            let ok = sent.is_ok();
            result = match sent {
                Ok(()) => Ok(()),
                Err(v) => Err(SendError(v)),
            };
            proof {
                cur = cur.push((channel, value, ok));
                assert((sends_made(made) + cur).last() == cur.last());
            }
            keep_going = ok;
            i = i + 1;
        }
        proof {
            assert(round_made(plan, cur));
            let next = made.push(cur);
            assert(next.drop_last() =~= made);
            assert(sends_made(next) == sends_made(made) + cur);
            if cur.len() == 0 {
                assert(sends_made(made) + cur =~= sends_made(made));
            }
            made = next;
        }
        k = k + 1;
    }
    (result, Ghost(made))
}

/// Whether `sends` and `r` are what sending `data` into the one channel
/// `channel` makes and returns: the sends of its plan; for a decomposed
/// output, which one channel cannot take, its last value as the error, else
/// the outcome of the sends.
pub open spec fn single_send_done<T: Sharable>(
    data: ODFormat<T>,
    channel: usize,
    sends: Seq<Seq<(usize, T, bool)>>,
    r: Result<(), SendError<T>>,
) -> bool {
    &&& rounds_made(single_plan(data, channel), sends)
    &&& r == match data {
        ODFormat::Decompose(vs) => Err(SendError(vs@.last())),
        _ => outcome_of(sends_made(sends)),
    }
}

/// Whether `sends` and `r` are what sending `data` into channels `0..n`
/// makes and returns: the sends of its plan and their outcome.
pub open spec fn multi_send_done<T: Sharable>(
    data: ODFormat<T>,
    n: nat,
    sends: Seq<Seq<(usize, T, bool)>>,
    r: Result<(), SendError<T>>,
) -> bool {
    &&& rounds_made(multi_plan(data, n), sends)
    &&& r == outcome_of(sends_made(sends))
}

/// One round of `value` over channels `0..n`.
pub(crate) fn fan_round_of<T: Copy>(value: T, n: usize) -> (r: Vec<(usize, T)>)
    ensures
        r@ == fan_round(value, n as nat),
{
    let mut round: Vec<(usize, T)> = Vec::new();
    let mut i: usize = 0;
    while i < n
        invariant
            i <= n,
            round@ =~= fan_round(value, i as nat),
        decreases n - i,
    {
        round.push((i, value));
        i = i + 1;
    }
    round
}

/// The plan of `data` sent into the one channel `channel`.
pub(crate) fn single_rounds<T: Sharable>(data: &ODFormat<T>, channel: usize) -> (r: Vec<
    Vec<(usize, T)>,
>)
    ensures
        rounds_view(r@) == single_plan(*data, channel),
        forall|k: int, i: int|
            0 <= k < r@.len() && 0 <= i < r@[k]@.len() ==> (#[trigger] r@[k]@[i]).0 == channel,
{
    let mut round: Vec<(usize, T)> = Vec::new();
    match data {
        ODFormat::Decompose(_) => {
            let r: Vec<Vec<(usize, T)>> = Vec::new();
            assert(rounds_view(r@) =~= single_plan(*data, channel));
            return r;
        },
        ODFormat::Standard(v) => {
            round.push((channel, *v));
            assert(round@ =~= seq![(channel, *v)]);
        },
        ODFormat::Repeat(v, n) => {
            let mut i: usize = 0;
            while i < *n
                invariant
                    i <= *n,
                    round@ =~= Seq::new(i as nat, |j: int| (channel, *v)),
                decreases *n - i,
            {
                round.push((channel, *v));
                i = i + 1;
            }
        },
        ODFormat::Series(vs) => {
            let mut i: usize = 0;
            while i < vs.len()
                invariant
                    i <= vs@.len(),
                    round@ =~= vs@.take(i as int).map_values(|v: T| (channel, v)),
                decreases vs@.len() - i,
            {
                round.push((channel, vs[i]));
                assert(vs@.take(i + 1) =~= vs@.take(i as int).push(vs@[i as int]));
                i = i + 1;
            }
            assert(vs@.take(vs@.len() as int) =~= vs@);
        },
    }
    let mut r: Vec<Vec<(usize, T)>> = Vec::new();
    let ghost one = round@;
    r.push(round);
    assert(rounds_view(r@) =~= seq![one]);
    r
}

/// The plan of `data` sent into channels `0..n`.
pub(crate) fn multi_rounds<T: Sharable>(data: &ODFormat<T>, n: usize) -> (r: Vec<
    Vec<(usize, T)>,
>)
    ensures
        rounds_view(r@) == multi_plan(*data, n as nat),
        forall|k: int, i: int|
            0 <= k < r@.len() && 0 <= i < r@[k]@.len() ==> (#[trigger] r@[k]@[i]).0 < n,
{
    let mut r: Vec<Vec<(usize, T)>> = Vec::new();
    match data {
        ODFormat::Standard(v) => {
            let round = fan_round_of(*v, n);
            r.push(round);
            assert(rounds_view(r@) =~= seq![fan_round(*v, n as nat)]);
        },
        ODFormat::Decompose(vs) => {
            let m = if vs.len() < n {
                vs.len()
            } else {
                n
            };
            let mut round: Vec<(usize, T)> = Vec::new();
            let mut i: usize = 0;
            while i < m
                invariant
                    i <= m,
                    m <= vs@.len(),
                    m <= n,
                    round@ =~= Seq::new(i as nat, |j: int| (j as usize, vs@[j])),
                decreases m - i,
            {
                round.push((i, vs[i]));
                i = i + 1;
            }
            let ghost one = round@;
            r.push(round);
            assert(rounds_view(r@) =~= multi_plan(*data, n as nat));
        },
        ODFormat::Series(vs) => {
            let mut p: usize = 0;
            while p < vs.len()
                invariant
                    p <= vs@.len(),
                    rounds_view(r@) =~= Seq::new(p as nat, |q: int| fan_round(vs@[q], n as nat)),
                    forall|k: int, i: int|
                        0 <= k < r@.len() && 0 <= i < r@[k]@.len() ==> (#[trigger] r@[k]@[i]).0 < n,
                decreases vs@.len() - p,
            {
                let round = fan_round_of(vs[p], n);
                let ghost before = r@;
                r.push(round);
                assert(rounds_view(r@) =~= rounds_view(before).push(fan_round(vs@[p as int], n as nat)));
                p = p + 1;
            }
        },
        ODFormat::Repeat(v, reps) => {
            let mut p: usize = 0;
            while p < *reps
                invariant
                    p <= *reps,
                    rounds_view(r@) =~= Seq::new(p as nat, |q: int| fan_round(*v, n as nat)),
                    forall|k: int, i: int|
                        0 <= k < r@.len() && 0 <= i < r@[k]@.len() ==> (#[trigger] r@[k]@[i]).0 < n,
                decreases *reps - p,
            {
                let round = fan_round_of(*v, n);
                let ghost before = r@;
                r.push(round);
                assert(rounds_view(r@) =~= rounds_view(before).push(fan_round(*v, n as nat)));
                p = p + 1;
            }
        },
    }
    r
}

} // verus!
