use crate::comms_core::{WrappedReceiver, WrappedSender};
use crate::data_management::{BufferArray, DataWrapper};
use crate::interleaving::{channel_count, deinterleave, deinterleaved};
use crate::node_traits::{CollectibleNode, RunModel};
use crate::pipeline_traits::Sharable;
use crate::series_nodes::dest_ids_of;
use vstd::arithmetic::div_mod::lemma_fundamental_div_mod_converse;
use vstd::prelude::*;

verus! {

/// The blocks of `NB` values into which a separator splits a block of
/// `NC * NB` interleaved values: block `c` holds the values at positions
/// `c`, `c + NC`, `c + 2 NC`, ... in that order.
pub open spec fn split_into<I: Sharable, const ND: usize, const NB: usize>(
    block: BufferArray<I, ND>,
    num_channels: nat,
    blocks: Seq<BufferArray<I, NB>>,
) -> bool {
    deinterleaved(
        block.values(),
        num_channels,
        blocks.map_values(|b: BufferArray<I, NB>| b.values()),
    )
}

/// Splits an interleaved block (such as multi-channel audio, one frame after
/// another) into one block per channel, round-robin.
pub fn split_block<I: Sharable, const ND: usize, const NB: usize>(
    block: &BufferArray<I, ND>,
    num_channels: usize,
) -> (r: Vec<BufferArray<I, NB>>)
    requires
        num_channels > 0,
        ND == NB * num_channels,
    ensures
        split_into(*block, num_channels as nat, r@),
        r@.len() == num_channels,
{
    let values = block.read();
    let mut flat: Vec<I> = Vec::new();
    let mut i: usize = 0;
    while i < ND
        invariant
            i <= ND,
            values@ == block.values(),
            block.values().len() == ND,
            flat@ =~= block.values().take(i as int),
        decreases ND - i,
    {
        flat.push(values[i]);
        i = i + 1;
    }
    assert(flat@ =~= block.values());
    let channels = deinterleave(&flat, num_channels);
    proof {
        lemma_fundamental_div_mod_converse(ND as int, num_channels as int, NB as int, 0);
        assert forall|c: int| 0 <= c < num_channels implies #[trigger] channel_count(
            ND as nat,
            num_channels as nat,
            c as nat,
        ) == NB by {}
        assert forall|c: int| 0 <= c < num_channels implies (#[trigger] channels@[c])@.len() == NB by {
            assert(channels@.map_values(|v: Vec<I>| v@)[c] == channels@[c]@);
        }
    }
    let mut out: Vec<BufferArray<I, NB>> = Vec::new();
    let mut c: usize = 0;
    while c < num_channels
        invariant
            c <= num_channels,
            channels@.len() == num_channels,
            forall|j: int| 0 <= j < num_channels ==> (#[trigger] channels@[j])@.len() == NB,
            out@.len() == c,
            forall|j: int| 0 <= j < c ==> (#[trigger] out@[j]).values() == channels@[j]@,
        decreases num_channels - c,
    {
        let mut b: BufferArray<I, NB> = BufferArray::new();
        let mut k: usize = 0;
        while k < NB
            invariant
                k <= NB,
                c < num_channels,
                channels@.len() == num_channels,
                channels@[c as int]@.len() == NB,
                b.values().len() == NB,
                forall|j: int| 0 <= j < k ==> (#[trigger] b.values()[j]) == channels@[c as int]@[j],
            decreases NB - k,
        {
            let v = channels[c][k];
            let arr = b.read_mut();
            arr[k] = v;
            k = k + 1;
        }
        assert(b.values() =~= channels@[c as int]@);
        out.push(b);
        c = c + 1;
    }
    proof {
        assert(out@.map_values(|b: BufferArray<I, NB>| b.values()) =~= channels@.map_values(
            |v: Vec<I>| v@,
        ));
    }
    out
}

/// Whether one of the first `upto` outputs reported satiation and leads to
/// node `x`.
pub open spec fn reported_satiated(satiated: Seq<bool>, dest_ids: Seq<usize>, upto: int, x: usize) -> bool {
    exists|c: int| 0 <= c < upto && #[trigger] satiated[c] && dest_ids[c] == x
}

proof fn lemma_reported_step(satiated: Seq<bool>, dest_ids: Seq<usize>, c: int, x: usize)
    requires
        0 <= c,
    ensures
        reported_satiated(satiated, dest_ids, c + 1, x) == (reported_satiated(
            satiated,
            dest_ids,
            c,
            x,
        ) || (satiated[c] && dest_ids[c] == x)),
{
    if reported_satiated(satiated, dest_ids, c + 1, x) {
        let j = choose|j: int| 0 <= j < c + 1 && #[trigger] satiated[j] && dest_ids[j] == x;
        if j < c {
            assert(reported_satiated(satiated, dest_ids, c, x));
        }
    }
    if reported_satiated(satiated, dest_ids, c, x) {
        let j = choose|j: int| 0 <= j < c && #[trigger] satiated[j] && dest_ids[j] == x;
        assert(satiated[j] && 0 <= j < c + 1);
    }
    if satiated[c] && dest_ids[c] == x {
        assert(satiated[c]);
    }
}

/// The destinations among `dest_ids` of the outputs that reported
/// satiation, each once, in output order.
pub fn satiated_destinations(satiated: &Vec<bool>, dest_ids: &Vec<usize>) -> (r: Vec<usize>)
    requires
        satiated@.len() == dest_ids@.len(),
    ensures
        r@.no_duplicates(),
        forall|x: usize|
            r@.contains(x) <==> reported_satiated(satiated@, dest_ids@, satiated@.len() as int, x),
{
    let mut r: Vec<usize> = Vec::new();
    let mut c: usize = 0;
    while c < satiated.len()
        invariant
            c <= satiated@.len(),
            satiated@.len() == dest_ids@.len(),
            r@.no_duplicates(),
            forall|x: usize| r@.contains(x) <==> reported_satiated(satiated@, dest_ids@, c as int, x),
        decreases satiated@.len() - c,
    {
        let ghost before = r@;
        if satiated[c] {
            let d = dest_ids[c];
            let mut seen = false;
            let mut j: usize = 0;
            while j < r.len()
                invariant
                    j <= r@.len(),
                    seen == r@.take(j as int).contains(d),
                decreases r@.len() - j,
            {
                let ghost prefix = r@.take(j as int);
                let ghost next = r@.take(j + 1);
                if r[j] == d {
                    seen = true;
                }
                proof {
                    assert(next =~= prefix.push(r@[j as int]));
                    if prefix.contains(d) {
                        let i = choose|i: int| 0 <= i < prefix.len() && prefix[i] == d;
                        assert(next[i] == d);
                    }
                    if r@[j as int] == d {
                        assert(next[j as int] == d);
                    }
                    if next.contains(d) {
                        let i = choose|i: int| 0 <= i < next.len() && next[i] == d;
                        if i < j {
                            assert(prefix[i] == d);
                        }
                    }
                }
                j = j + 1;
            }
            assert(r@.take(r@.len() as int) =~= r@);
            if !seen {
                r.push(d);
                proof {
                    assert forall|x: usize| r@.contains(x) == (before.contains(x) || x == d) by {
                        if r@.contains(x) {
                            let i = choose|i: int| 0 <= i < r@.len() && r@[i] == x;
                            if i < before.len() {
                                assert(before[i] == x);
                            }
                        }
                        if before.contains(x) {
                            let i = choose|i: int| 0 <= i < before.len() && before[i] == x;
                            assert(r@[i] == x);
                        }
                        if x == d {
                            assert(r@[before.len() as int] == d);
                        }
                    }
                }
            } else {
                assert(r@.contains(d));
                assert forall|x: usize| r@.contains(x) == (before.contains(x) || x == d) by {}
            }
            assert(forall|x: usize| r@.contains(x) == (before.contains(x) || x == dest_ids@[c as int]));
        } else {
            assert(r@ == before);
        }
        proof {
            assert forall|x: usize| r@.contains(x) <==> reported_satiated(
                satiated@,
                dest_ids@,
                c + 1,
                x,
            ) by {
                lemma_reported_step(satiated@, dest_ids@, c as int, x);
                assert(before.contains(x) <==> reported_satiated(satiated@, dest_ids@, c as int, x));
            }
        }
        c = c + 1;
    }
    r
}

/// Splits each interleaved block of `ND` values received on its input into
/// `NC` blocks of `NB` values, one per output channel, round-robin; computes
/// on a compute thread, then sends the blocks as a communicator.
#[verifier::reject_recursive_types(I)]
#[verifier::reject_recursive_types(ND)]
#[verifier::reject_recursive_types(NB)]
pub struct PipelineInterleavedSeparator<I: Sharable, const NC: usize, const ND: usize, const NB: usize> {
    input: WrappedReceiver<BufferArray<I, ND>>,
    output: Vec<WrappedSender<BufferArray<I, NB>>>,
    buffered_data: Option<Vec<BufferArray<I, NB>>>,
}

impl<I: Sharable, const NC: usize, const ND: usize, const NB: usize> PipelineInterleavedSeparator<
    I,
    NC,
    ND,
    NB,
> {
    /// The destinations of the output channels, in order.
    pub closed spec fn spec_successors(&self) -> Seq<usize> {
        self.output@.map_values(|s: WrappedSender<BufferArray<I, NB>>| s.spec_dest_id())
    }

    /// The blocks split off the last input and not yet sent, if any.
    pub closed spec fn spec_buffered(&self) -> Option<Seq<BufferArray<I, NB>>> {
        match self.buffered_data {
            Some(v) => Some(v@),
            None => None,
        }
    }

    /// The input channel.
    pub closed spec fn spec_input_channel(&self) -> WrappedReceiver<BufferArray<I, ND>> {
        self.input
    }

    pub closed spec fn wf(&self) -> bool {
        &&& self.output@.len() == NC
        &&& NC > 0
        &&& ND == NB * NC
    }

    /// A separator over one input channel and `NC` output channels, with
    /// nothing buffered.
    pub fn new(
        input: WrappedReceiver<BufferArray<I, ND>>,
        output: Vec<WrappedSender<BufferArray<I, NB>>>,
    ) -> (r: Self)
        requires
            output@.len() == NC,
            NC > 0,
            ND == NB * NC,
        ensures
            r.wf(),
            r.spec_buffered() is None,
            r.spec_input_channel() == input,
            r.spec_successors() == output@.map_values(
                |s: WrappedSender<BufferArray<I, NB>>| s.spec_dest_id(),
            ),
    {
        PipelineInterleavedSeparator { input, output, buffered_data: None }
    }

    /// Splits a received block into the blocks to send, round-robin, and
    /// buffers them; the emptied buffer goes back to the input's pool.
    pub fn separate(&mut self, received: DataWrapper<BufferArray<I, ND>>)
        requires
            old(self).wf(),
        ensures
            final(self).wf(),
            final(self).spec_buffered() matches Some(blocks) && split_into(
                received.value(),
                NC as nat,
                blocks,
            ),
            final(self).spec_successors() == old(self).spec_successors(),
    {
        let ghost succ = self.spec_successors();
        let mut received = received;
        let block = *received.read();
        let blocks = split_block::<I, ND, NB>(&block, NC);
        self.buffered_data = Some(blocks);
        self.input.refill_buffer(received);
        proof {
            assert(self.spec_successors() =~= succ);
        }
    }

    /// The buffered blocks, which leave the separator: what is to be sent.
    pub fn take_blocks(&mut self) -> (r: Option<Vec<BufferArray<I, NB>>>)
        ensures
            r matches Some(v) ==> old(self).spec_buffered() == Some(v@),
            r is None <==> old(self).spec_buffered() is None,
            final(self).spec_buffered() is None,
            final(self).spec_successors() == old(self).spec_successors(),
            final(self).wf() == old(self).wf(),
    {
        let ghost succ = self.spec_successors();
        let r = self.buffered_data.take();
        proof {
            assert(self.spec_successors() =~= succ);
        }
        r
    }

    /// The sends of the buffered blocks, which leave the separator: block
    /// `k` into output channel `k`, in channel order; `None` where nothing
    /// is buffered.
    pub fn take_sends(&mut self) -> (r: Option<Vec<(usize, BufferArray<I, NB>)>>)
        ensures
            r is None <==> old(self).spec_buffered() is None,
            r matches Some(sends) ==> (old(self).spec_buffered() matches Some(blocks) && sends@.len()
                == blocks.len() && forall|k: int|
                0 <= k < blocks.len() ==> #[trigger] sends@[k] == (k as usize, blocks[k])),
            final(self).spec_buffered() is None,
            final(self).spec_successors() == old(self).spec_successors(),
            final(self).wf() == old(self).wf(),
    {
        match self.take_blocks() {
            None => None,
            Some(blocks) => {
                let mut sends: Vec<(usize, BufferArray<I, NB>)> = Vec::new();
                let mut k: usize = 0;
                while k < blocks.len()
                    invariant
                        k <= blocks@.len(),
                        sends@.len() == k,
                        forall|j: int| 0 <= j < k ==> #[trigger] sends@[j] == (j as usize, blocks@[j]),
                    decreases blocks@.len() - k,
                {
                    sends.push((k, blocks[k]));
                    k = k + 1;
                }
                Some(sends)
            },
        }
    }

    /// The input channel.
    pub fn input_channel(&mut self) -> (r: &mut WrappedReceiver<BufferArray<I, ND>>)
        ensures
            *r == old(self).spec_input_channel(),
            final(self).spec_input_channel() == *final(r),
            final(self).spec_successors() == old(self).spec_successors(),
            final(self).spec_buffered() == old(self).spec_buffered(),
            final(self).wf() == old(self).wf(),
    {
        &mut self.input
    }

    /// Output channel `k`.
    pub fn output_channel(&mut self, k: usize) -> (r: &mut WrappedSender<BufferArray<I, NB>>)
        requires
            k < old(self).spec_successors().len(),
        ensures
            r.spec_dest_id() == old(self).spec_successors()[k as int],
            final(self).spec_successors() == old(self).spec_successors().update(
                k as int,
                final(r).spec_dest_id(),
            ),
            final(self).spec_buffered() == old(self).spec_buffered(),
            final(self).wf() == old(self).wf(),
    {
        &mut self.output[k]
    }
}

impl<I: Sharable, const NC: usize, const ND: usize, const NB: usize> CollectibleNode for PipelineInterleavedSeparator<
    I,
    NC,
    ND,
    NB,
> {
    open spec fn spec_num_inputs(&self) -> usize {
        1
    }

    open spec fn spec_num_outputs(&self) -> usize {
        NC
    }

    open spec fn spec_has_initial_state(&self) -> bool {
        false
    }

    open spec fn spec_run_model(&self) -> RunModel {
        if self.spec_buffered() is Some {
            RunModel::Communicator
        } else {
            RunModel::CPU
        }
    }

    open spec fn spec_is_sink(&self) -> bool {
        NC == 0
    }

    fn get_num_inputs(&self) -> (r: usize) {
        1
    }

    fn get_num_outputs(&self) -> (r: usize) {
        NC
    }

    fn has_initial_state(&self) -> (r: bool) {
        false
    }

    /// A separator has no initial state: there is nothing to load.
    fn load_initial_state(&mut self)
        ensures
            *final(self) == *old(self),
    {
    }

    fn is_ready_exec(&self) -> (r: bool)
        ensures
            call_ensures(WrappedReceiver::channel_satiated, (&self.spec_input_channel(),), r),
    {
        let r = self.input.channel_satiated();
        assert(call_ensures(WrappedReceiver::channel_satiated, (&self.spec_input_channel(),), r));
        r
    }

    fn get_successors(&self) -> (r: Vec<usize>)
        ensures
            r@ == self.spec_successors(),
    {
        dest_ids_of(&self.output)
    }

    fn get_run_model(&self) -> (r: RunModel) {
        match &self.buffered_data {
            Some(_) => RunModel::Communicator,
            None => RunModel::CPU,
        }
    }

    /// A separator keeps no record of satiated edges: its sends report them.
    fn check_nth_satiated_edge_id(&self, edge_index: usize) -> (r: Option<usize>)
        ensures
            r is None,
    {
        None
    }

    fn is_sink(&self) -> (r: bool) {
        NC == 0
    }
}

} // verus!
