use crate::comms_core::{lemma_satiation_record_bounds, record_satiated_edges, satiation_record, WrappedReceiver, WrappedSender};
use crate::data_management::{BufferArray, DataWrapper};
use crate::node_traits::{CollectibleNode, RunModel};
use crate::pipeline_traits::Sharable;
use vstd::prelude::*;

verus! {

/// The destinations of a list of senders, in order.
pub(crate) fn dest_ids_of<T: Sharable>(output: &Vec<WrappedSender<T>>) -> (r: Vec<usize>)
    ensures
        r@ == output@.map_values(|s: WrappedSender<T>| s.spec_dest_id()),
{
    let mut r: Vec<usize> = Vec::new();
    let mut i: usize = 0;
    while i < output.len()
        invariant
            i <= output@.len(),
            r@ =~= output@.map_values(|s: WrappedSender<T>| s.spec_dest_id()).take(i as int),
        decreases output@.len() - i,
    {
        r.push(*output[i].get_dest_id());
        i = i + 1;
    }
    assert(output@.map_values(|s: WrappedSender<T>| s.spec_dest_id()).take(i as int)
        =~= output@.map_values(|s: WrappedSender<T>| s.spec_dest_id()));
    r
}

/// The sends of item `idx` of a block: to every output `0..no`, in order.
pub open spec fn item_round(idx: int, no: nat) -> Seq<(usize, usize)> {
    Seq::new(no, |k: int| (idx as usize, k as usize))
}

/// The (item, output) pairs of one round: item `idx` to outputs `0..no`.
fn item_round_of(idx: usize, no: usize) -> (r: Vec<(usize, usize)>)
    ensures
        r@ == item_round(idx as int, no as nat),
{
    let mut round: Vec<(usize, usize)> = Vec::new();
    let mut k: usize = 0;
    while k < no
        invariant
            k <= no,
            round@ =~= item_round(idx as int, k as nat),
        decreases no - k,
    {
        round.push((idx, k));
        k = k + 1;
    }
    round
}

/// Splits each received block of `ND` values into `ND` single values and
/// sends each, in order, to all `NO` outputs.
#[verifier::reject_recursive_types(I)]
#[verifier::reject_recursive_types(ND)]
pub struct PipelineSeriesDeconstructor<I: Sharable, const NO: usize, const ND: usize> {
    input: WrappedReceiver<BufferArray<I, ND>>,
    output: Vec<WrappedSender<I>>,
    satiated_edges: Vec<usize>,
    buffered_input: Vec<DataWrapper<I>>,
}

impl<I: Sharable, const NO: usize, const ND: usize> PipelineSeriesDeconstructor<I, NO, ND> {
    pub closed spec fn spec_successors(&self) -> Seq<usize> {
        self.output@.map_values(|s: WrappedSender<I>| s.spec_dest_id())
    }

    pub closed spec fn spec_satiated_edges(&self) -> Seq<usize> {
        self.satiated_edges@
    }

    /// The input channel.
    pub closed spec fn spec_input_channel(&self) -> WrappedReceiver<BufferArray<I, ND>> {
        self.input
    }

    /// The value buffered for item `idx` of the current block.
    pub closed spec fn spec_item(&self, idx: int) -> I {
        self.buffered_input@[idx].value()
    }

    pub closed spec fn wf(&self) -> bool {
        &&& self.output@.len() == NO
        &&& self.satiated_edges@.len() == NO
        &&& self.buffered_input@.len() == ND
    }

    pub fn new(input: WrappedReceiver<BufferArray<I, ND>>, output: Vec<WrappedSender<I>>) -> (d: Self)
        requires
            output@.len() == NO,
        ensures
            d.wf(),
            d.spec_successors() == output@.map_values(|s: WrappedSender<I>| s.spec_dest_id()),
            d.spec_satiated_edges() == Seq::new(NO as nat, |i: int| 0usize),
    {
        let mut satiated_edges: Vec<usize> = Vec::new();
        let mut i: usize = 0;
        while i < NO
            invariant
                i <= NO,
                satiated_edges@ == Seq::new(i as nat, |j: int| 0usize),
            decreases NO - i,
        {
            satiated_edges.push(0);
            i = i + 1;
        }
        let mut buffered_input: Vec<DataWrapper<I>> = Vec::new();
        let mut j: usize = 0;
        while j < ND
            invariant
                j <= ND,
                buffered_input@.len() == j,
            decreases ND - j,
        {
            buffered_input.push(DataWrapper::new());
            j = j + 1;
        }
        PipelineSeriesDeconstructor { input, output, satiated_edges, buffered_input }
    }

    /// The order in which a block goes out: one round per item, in order,
    /// each sending the item to every output in order. A failed send ends
    /// the block; satiation is recorded after each round.
    pub fn send_rounds(&self) -> (r: Vec<Vec<(usize, usize)>>)
        ensures
            r@.len() == ND,
            forall|idx: int| 0 <= idx < ND ==> (#[trigger] r@[idx])@ == item_round(idx, NO as nat),
    {
        let mut rounds: Vec<Vec<(usize, usize)>> = Vec::new();
        let mut idx: usize = 0;
        while idx < ND
            invariant
                idx <= ND,
                rounds@.len() == idx,
                forall|j: int| 0 <= j < idx ==> (#[trigger] rounds@[j])@ == item_round(j, NO as nat),
            decreases ND - idx,
        {
            rounds.push(item_round_of(idx, NO));
            idx = idx + 1;
        }
        rounds
    }

    /// Swaps item `idx` of a received block into the item buffer.
    pub fn load_item(&mut self, idx: usize, item: &mut I)
        requires
            old(self).wf(),
            idx < ND,
        ensures
            final(self).wf(),
            final(self).spec_item(idx as int) == *old(item),
            *final(item) == old(self).spec_item(idx as int),
            final(self).spec_successors() == old(self).spec_successors(),
    {
        self.buffered_input[idx].swap(item);
    }

    /// The buffer to send into output `k` for item `idx`: a copy for every
    /// output but the last, the item itself for the last.
    pub fn stage_item(&mut self, idx: usize, k: usize) -> (r: DataWrapper<I>)
        requires
            old(self).wf(),
            idx < ND,
            k < NO,
        ensures
            final(self).wf(),
            r.value() == old(self).spec_item(idx as int),
            final(self).spec_successors() == old(self).spec_successors(),
    {
        let ghost succ = self.spec_successors();
        let r = if k + 1 < NO {
            self.output[k].stage_copy(&mut self.buffered_input[idx])
        } else {
            self.output[k].stage_swap(&mut self.buffered_input[idx])
        };
        proof {
            assert(self.spec_successors() =~= succ);
        }
        r
    }

    /// Records which outputs were satiated after sending one item.
    pub fn record_satiation(&mut self, satiated: &Vec<bool>) -> (r: usize)
        requires
            old(self).wf(),
            satiated@.len() == NO,
            NO > 0,
        ensures
            final(self).wf(),
            (final(self).spec_satiated_edges(), r as nat) == satiation_record(
                satiated@,
                old(self).spec_successors(),
                old(self).spec_satiated_edges(),
                NO as int,
            ),
            final(self).spec_successors() == old(self).spec_successors(),
    {
        let dest_ids = dest_ids_of(&self.output);
        let mut edges: Vec<usize> = Vec::new();
        core::mem::swap(&mut edges, &mut self.satiated_edges);
        let ghost edges0 = edges@;
        let r = record_satiated_edges(satiated, &dest_ids, &mut edges);
        proof {
            lemma_satiation_record_bounds(satiated@, dest_ids@, edges0, NO as int);
        }
        self.satiated_edges = edges;
        r
    }

    /// The input channel.
    pub fn input_channel(&mut self) -> (r: &mut WrappedReceiver<BufferArray<I, ND>>)
        ensures
            *r == old(self).spec_input_channel(),
            final(self).spec_input_channel() == *final(r),
            final(self).spec_successors() == old(self).spec_successors(),
            final(self).spec_satiated_edges() == old(self).spec_satiated_edges(),
            forall|i: int| 0 <= i < ND ==> final(self).spec_item(i) == old(self).spec_item(i),
            final(self).wf() == old(self).wf(),
    {
        &mut self.input
    }

    /// Output channel `k`.
    pub fn output_channel(&mut self, k: usize) -> (r: &mut WrappedSender<I>)
        requires
            k < old(self).spec_successors().len(),
        ensures
            r.spec_dest_id() == old(self).spec_successors()[k as int],
            final(self).spec_successors() == old(self).spec_successors().update(
                k as int,
                final(r).spec_dest_id(),
            ),
            final(self).spec_satiated_edges() == old(self).spec_satiated_edges(),
            forall|i: int| 0 <= i < ND ==> final(self).spec_item(i) == old(self).spec_item(i),
            final(self).wf() == old(self).wf(),
    {
        &mut self.output[k]
    }
}

impl<I: Sharable, const NO: usize, const ND: usize> CollectibleNode for PipelineSeriesDeconstructor<
    I,
    NO,
    ND,
> {
    open spec fn spec_num_inputs(&self) -> usize {
        1
    }

    open spec fn spec_num_outputs(&self) -> usize {
        NO
    }

    open spec fn spec_has_initial_state(&self) -> bool {
        false
    }

    open spec fn spec_run_model(&self) -> RunModel {
        RunModel::Communicator
    }

    open spec fn spec_is_sink(&self) -> bool {
        NO == 0
    }

    fn get_num_inputs(&self) -> (r: usize) {
        1
    }

    fn get_num_outputs(&self) -> (r: usize) {
        NO
    }

    fn has_initial_state(&self) -> (r: bool) {
        false
    }

    /// A deconstructor has no initial state: there is nothing to load.
    fn load_initial_state(&mut self)
        ensures
            *final(self) == *old(self),
    {
    }

    fn is_ready_exec(&self) -> (r: bool)
        ensures
            call_ensures(WrappedReceiver::channel_satiated, (&self.spec_input_channel(),), r),
    {
        let r = self.input.channel_satiated();
        assert(call_ensures(WrappedReceiver::channel_satiated, (&self.spec_input_channel(),), r));
        r
    }

    fn get_successors(&self) -> (r: Vec<usize>)
        ensures
            r@ == self.spec_successors(),
    {
        dest_ids_of(&self.output)
    }

    fn get_run_model(&self) -> (r: RunModel) {
        RunModel::Communicator
    }

    fn check_nth_satiated_edge_id(&self, edge_index: usize) -> (r: Option<usize>)
        ensures
            edge_index < NO && edge_index < self.spec_satiated_edges().len() ==> r == Some(
                self.spec_satiated_edges()[edge_index as int],
            ),
            edge_index >= NO ==> r is None,
    {
        if edge_index < NO && edge_index < self.satiated_edges.len() {
            Some(self.satiated_edges[edge_index])
        } else {
            None
        }
    }

    fn is_sink(&self) -> (r: bool) {
        NO == 0
    }
}

/// Gathers `ND` single values into one block and sends the block to all
/// `NO` outputs.
#[verifier::reject_recursive_types(I)]
#[verifier::reject_recursive_types(ND)]
pub struct PipelineSeriesReconstructor<I: Sharable, const NO: usize, const ND: usize> {
    input: WrappedReceiver<I>,
    output: Vec<WrappedSender<BufferArray<I, ND>>>,
    receive_demands: usize,
    gathered: DataWrapper<BufferArray<I, ND>>,
    satiated_edges: Vec<usize>,
}

impl<I: Sharable, const NO: usize, const ND: usize> PipelineSeriesReconstructor<I, NO, ND> {
    pub closed spec fn spec_successors(&self) -> Seq<usize> {
        self.output@.map_values(|s: WrappedSender<BufferArray<I, ND>>| s.spec_dest_id())
    }

    pub closed spec fn spec_receive_demands(&self) -> usize {
        self.receive_demands
    }

    /// The input channel.
    pub closed spec fn spec_input_channel(&self) -> WrappedReceiver<I> {
        self.input
    }

    /// The block gathered so far.
    pub closed spec fn spec_gathered(&self) -> Seq<I> {
        self.gathered.value().values()
    }

    pub closed spec fn spec_satiated_edges(&self) -> Seq<usize> {
        self.satiated_edges@
    }

    pub closed spec fn wf(&self) -> bool {
        &&& self.output@.len() == NO
        &&& self.satiated_edges@.len() == NO
        &&& self.receive_demands == ND
        &&& self.spec_gathered().len() == ND
    }

    /// A reconstructor that gathers `receive_demands` values, which must be
    /// the block size.
    pub fn new(
        input: WrappedReceiver<I>,
        output: Vec<WrappedSender<BufferArray<I, ND>>>,
        receive_demands: usize,
    ) -> (r: Self)
        requires
            output@.len() == NO,
            receive_demands == ND,
        ensures
            r.wf(),
            r.spec_receive_demands() == receive_demands,
            r.spec_successors() == output@.map_values(
                |s: WrappedSender<BufferArray<I, ND>>| s.spec_dest_id(),
            ),
    {
        let mut satiated_edges: Vec<usize> = Vec::new();
        let mut i: usize = 0;
        while i < NO
            invariant
                i <= NO,
                satiated_edges@.len() == i,
            decreases NO - i,
        {
            satiated_edges.push(0);
            i = i + 1;
        }
        Self {
            input,
            output,
            receive_demands,
            gathered: DataWrapper::new_with_value(BufferArray::new()),
            satiated_edges,
        }
    }

    /// How many values make one block.
    pub fn receive_demands(&self) -> (r: usize)
        ensures
            r == self.spec_receive_demands(),
    {
        self.receive_demands
    }

    /// Stores the `idx`-th value of the block being gathered.
    pub fn gather(&mut self, idx: usize, value: I)
        requires
            old(self).wf(),
            idx < ND,
        ensures
            final(self).wf(),
            final(self).spec_gathered() == old(self).spec_gathered().update(idx as int, value),
            final(self).spec_successors() == old(self).spec_successors(),
    {
        let mut block = *self.gathered.read();
        let arr = block.read_mut();
        arr[idx] = value;
        self.gathered = DataWrapper::new_with_value(block);
    }

    /// The block to send into output `k`.
    pub fn stage_block(&mut self, k: usize) -> (r: DataWrapper<BufferArray<I, ND>>)
        requires
            old(self).wf(),
            k < NO,
        ensures
            final(self).wf(),
            r.value().values() == old(self).spec_gathered(),
            final(self).spec_successors() == old(self).spec_successors(),
    {
        let ghost succ = self.spec_successors();
        let r = self.output[k].stage_copy(&mut self.gathered);
        proof {
            assert(self.spec_successors() =~= succ);
        }
        r
    }

    /// Records which outputs were satiated after sending the block.
    pub fn record_satiation(&mut self, satiated: &Vec<bool>) -> (r: usize)
        requires
            old(self).wf(),
            satiated@.len() == NO,
            NO > 0,
        ensures
            final(self).wf(),
            (final(self).spec_satiated_edges(), r as nat) == satiation_record(
                satiated@,
                old(self).spec_successors(),
                old(self).spec_satiated_edges(),
                NO as int,
            ),
            final(self).spec_successors() == old(self).spec_successors(),
    {
        let dest_ids = dest_ids_of(&self.output);
        let mut edges: Vec<usize> = Vec::new();
        core::mem::swap(&mut edges, &mut self.satiated_edges);
        let ghost edges0 = edges@;
        let r = record_satiated_edges(satiated, &dest_ids, &mut edges);
        proof {
            lemma_satiation_record_bounds(satiated@, dest_ids@, edges0, NO as int);
        }
        self.satiated_edges = edges;
        r
    }

    /// The input channel.
    pub fn input_channel(&mut self) -> (r: &mut WrappedReceiver<I>)
        ensures
            *r == old(self).spec_input_channel(),
            final(self).spec_input_channel() == *final(r),
            final(self).spec_successors() == old(self).spec_successors(),
            final(self).spec_gathered() == old(self).spec_gathered(),
            final(self).spec_satiated_edges() == old(self).spec_satiated_edges(),
            final(self).spec_receive_demands() == old(self).spec_receive_demands(),
            final(self).wf() == old(self).wf(),
    {
        &mut self.input
    }

    /// Output channel `k`.
    pub fn output_channel(&mut self, k: usize) -> (r: &mut WrappedSender<BufferArray<I, ND>>)
        requires
            k < old(self).spec_successors().len(),
        ensures
            r.spec_dest_id() == old(self).spec_successors()[k as int],
            final(self).spec_successors() == old(self).spec_successors().update(
                k as int,
                final(r).spec_dest_id(),
            ),
            final(self).spec_gathered() == old(self).spec_gathered(),
            final(self).spec_satiated_edges() == old(self).spec_satiated_edges(),
            final(self).spec_receive_demands() == old(self).spec_receive_demands(),
            final(self).wf() == old(self).wf(),
    {
        &mut self.output[k]
    }
}

impl<I: Sharable, const NO: usize, const ND: usize> CollectibleNode for PipelineSeriesReconstructor<
    I,
    NO,
    ND,
> {
    open spec fn spec_num_inputs(&self) -> usize {
        1
    }

    open spec fn spec_num_outputs(&self) -> usize {
        NO
    }

    open spec fn spec_has_initial_state(&self) -> bool {
        false
    }

    open spec fn spec_run_model(&self) -> RunModel {
        RunModel::Communicator
    }

    open spec fn spec_is_sink(&self) -> bool {
        NO == 0
    }

    fn get_num_inputs(&self) -> (r: usize) {
        1
    }

    fn get_num_outputs(&self) -> (r: usize) {
        NO
    }

    fn has_initial_state(&self) -> (r: bool) {
        false
    }

    /// A reconstructor has no initial state: there is nothing to load.
    fn load_initial_state(&mut self)
        ensures
            *final(self) == *old(self),
    {
    }

    fn is_ready_exec(&self) -> (r: bool)
        ensures
            call_ensures(WrappedReceiver::channel_satiated, (&self.spec_input_channel(),), r),
    {
        let r = self.input.channel_satiated();
        assert(call_ensures(WrappedReceiver::channel_satiated, (&self.spec_input_channel(),), r));
        r
    }

    fn get_successors(&self) -> (r: Vec<usize>)
        ensures
            r@ == self.spec_successors(),
    {
        dest_ids_of(&self.output)
    }

    fn get_run_model(&self) -> (r: RunModel) {
        RunModel::Communicator
    }

    fn check_nth_satiated_edge_id(&self, edge_index: usize) -> (r: Option<usize>)
        ensures
            edge_index < NO && edge_index < self.spec_satiated_edges().len() ==> r == Some(
                self.spec_satiated_edges()[edge_index as int],
            ),
            edge_index >= NO ==> r is None,
    {
        if edge_index < NO && edge_index < self.satiated_edges.len() {
            Some(self.satiated_edges[edge_index])
        } else {
            None
        }
    }

    fn is_sink(&self) -> (r: bool) {
        NO == 0
    }
}

} // verus!
