use vstd::arithmetic::div_mod::{lemma_fundamental_div_mod, lemma_fundamental_div_mod_converse};
use vstd::prelude::*;

verus! {

/// How many of the first `len` positions fall to channel `c` of `n` in
/// round-robin order.
pub open spec fn channel_count(len: nat, n: nat, c: nat) -> nat {
    if c < len % n {
        len / n + 1
    } else {
        len / n
    }
}

/// `out` splits `x` round-robin over `n` channels: channel `c` holds the
/// values at positions `c`, `c + n`, `c + 2n`, ... in that order.
pub open spec fn deinterleaved<T>(x: Seq<T>, n: nat, out: Seq<Seq<T>>) -> bool {
    &&& out.len() == n
    &&& forall|c: int| 0 <= c < n ==> (#[trigger] out[c]).len() == channel_count(x.len(), n, c as nat)
    &&& forall|c: int, k: int|
        0 <= c < n && 0 <= k < out[c].len() ==> #[trigger] out[c][k] == x[k * n + c]
}

/// Splits an interleaved block (such as multi-channel audio, one frame after
/// another) into one block per channel: the first value to channel 0, the
/// next to channel 1, and so on round-robin.
pub fn deinterleave<T: Copy>(input: &Vec<T>, num_channels: usize) -> (out: Vec<Vec<T>>)
    requires
        num_channels > 0,
    ensures
        deinterleaved(input@, num_channels as nat, out@.map_values(|v: Vec<T>| v@)),
{
    let n = num_channels;
    let mut output_values: Vec<Vec<T>> = Vec::new();
    let mut c: usize = 0;
    while c < n
        invariant
            c <= n,
            output_values@.len() == c,
            forall|j: int| 0 <= j < c ==> (#[trigger] output_values@[j])@.len() == 0,
        decreases n - c,
    {
        output_values.push(Vec::new());
        c = c + 1;
    }
    let mut current_channel: usize = 0;
    let ghost mut q: int = 0;
    let mut i: usize = 0;
    while i < input.len()
        invariant
            n > 0,
            i <= input@.len(),
            output_values@.len() == n,
            0 <= current_channel < n,
            q >= 0,
            i == q * n + current_channel,
            forall|j: int|
                0 <= j < n ==> (#[trigger] output_values@[j])@.len() == if j < current_channel {
                    q + 1
                } else {
                    q
                },
            forall|j: int, k: int|
                0 <= j < n && 0 <= k < output_values@[j]@.len() ==> #[trigger] output_values@[j]@[k]
                    == input@[k * n + j],
        decreases input@.len() - i,
    {
        let value = input[i];
        let ghost before = output_values@;
        output_values[current_channel].push(value);
        proof {
            assert forall|j: int, k: int|
                0 <= j < n && 0 <= k < output_values@[j]@.len() implies #[trigger] output_values@[j]@[k]
                == input@[k * n + j] by {
                if j == current_channel && k == q {
                    assert(k * n + j == i);
                } else {
                    assert(output_values@[j]@[k] == before[j]@[k]);
                }
            }
        }
        if current_channel + 1 < n {
            current_channel = current_channel + 1;
        } else {
            current_channel = 0;
            proof {
                q = q + 1;
            }
        }
        proof {
            assert((q * n) == (if current_channel == 0 { (q - 1) * n + n } else { q * n })) by (nonlinear_arith);
        }
        i = i + 1;
    }
    proof {
        lemma_fundamental_div_mod_converse(input@.len() as int, n as int, q, current_channel as int);
        let outv = output_values@.map_values(|v: Vec<T>| v@);
        assert forall|c: int| 0 <= c < n implies (#[trigger] outv[c]).len() == channel_count(
            input@.len(),
            n as nat,
            c as nat,
        ) by {
            assert(outv[c] == output_values@[c]@);
        }
        assert forall|c: int, k: int|
            0 <= c < n && 0 <= k < outv[c].len() implies #[trigger] outv[c][k] == input@[k * n + c] by {
            assert(outv[c] == output_values@[c]@);
        }
    }
    output_values
}

/// Every value of the interleaved block is found again in its channel:
/// position `i` is the `i / n`-th value of channel `i % n`.
pub proof fn lemma_deinterleave_keeps_every_value<T>(x: Seq<T>, n: nat, out: Seq<Seq<T>>, i: int)
    requires
        n > 0,
        deinterleaved(x, n, out),
        0 <= i < x.len(),
    ensures
        0 <= i % (n as int) < n,
        0 <= i / (n as int) < out[i % (n as int)].len(),
        out[i % (n as int)][i / (n as int)] == x[i],
{
    let nn = n as int;
    let len = x.len() as int;
    lemma_fundamental_div_mod(i, nn);
    lemma_fundamental_div_mod(len, nn);
    let c = i % nn;
    let k = i / nn;
    assert(0 <= c < nn) by {
        vstd::arithmetic::div_mod::lemma_mod_bound(i, nn);
    }
    assert(0 <= k) by {
        vstd::arithmetic::div_mod::lemma_div_pos_is_pos(i, nn);
    }
    assert(out[c].len() == channel_count(x.len(), n, c as nat));
    assert(k * nn + c == i) by (nonlinear_arith)
        requires
            i == nn * k + c,
    ;
    assert(k < out[c].len()) by {
        let lq = len / nn;
        let lr = len % nn;
        vstd::arithmetic::div_mod::lemma_mod_bound(len, nn);
        assert(k <= lq) by (nonlinear_arith)
            requires
                i == nn * k + c,
                len == nn * lq + lr,
                0 <= c < nn,
                0 <= lr < nn,
                i < len,
                nn > 0,
        ;
        if k == lq {
            assert(c < lr) by (nonlinear_arith)
                requires
                    i == nn * k + c,
                    len == nn * lq + lr,
                    k == lq,
                    i < len,
            ;
        }
    }
}

/// The number of values that the first `upto` channels of `n` receive from
/// a block of `len` values.
pub open spec fn channels_total(len: nat, n: nat, upto: nat) -> nat
    decreases upto,
{
    if upto == 0 {
        0
    } else {
        channels_total(len, n, (upto - 1) as nat) + channel_count(len, n, (upto - 1) as nat)
    }
}

proof fn lemma_channels_total_prefix(len: nat, n: nat, upto: nat)
    requires
        n > 0,
        upto <= n,
    ensures
        channels_total(len, n, upto) == upto * (len / n) + if upto <= len % n {
            upto
        } else {
            len % n
        },
    decreases upto,
{
    if upto > 0 {
        lemma_channels_total_prefix(len, n, (upto - 1) as nat);
        let q = len / n;
        let r = len % n;
        let u = (upto - 1) as nat;
        assert(upto * q == u * q + q) by (nonlinear_arith)
            requires
                upto == u + 1,
        ;
        assert(channels_total(len, n, upto) == channels_total(len, n, u) + channel_count(len, n, u));
        let prev = channels_total(len, n, u);
        assert(prev == u * q + if u <= r {
            u
        } else {
            r
        });
        if u < r {
            assert(channel_count(len, n, u) == q + 1);
            assert(channels_total(len, n, upto) == u * q + u + q + 1);
        } else {
            assert(channel_count(len, n, u) == q);
            assert(channels_total(len, n, upto) == u * q + r + q);
        }
    } else {
        assert(upto * (len / n) == 0) by (nonlinear_arith)
            requires
                upto == 0,
        ;
    }
}

/// Splitting a block loses and repeats no value: the lengths of the channels
/// add up to the length of the block.
pub proof fn lemma_channel_lengths_add_up<T>(x: Seq<T>, n: nat, out: Seq<Seq<T>>)
    requires
        n > 0,
        deinterleaved(x, n, out),
    ensures
        channels_total(x.len(), n, n) == x.len(),
        forall|c: int| 0 <= c < n ==> (#[trigger] out[c]).len() == channel_count(x.len(), n, c as nat),
{
    lemma_channels_total_prefix(x.len(), n, n);
    lemma_fundamental_div_mod(x.len() as int, n as int);
    vstd::arithmetic::div_mod::lemma_mod_bound(x.len() as int, n as int);
    let q = x.len() / n;
    assert(n * q == q * n) by (nonlinear_arith);
}

} // verus!
