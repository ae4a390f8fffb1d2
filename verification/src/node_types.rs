use crate::comms_core::{lemma_satiation_record_bounds, record_satiated_edges, satiation_record, WrappedReceiver, WrappedSender};
use crate::data_management::DataWrapper;
use crate::multichannel_comms::all_received;
use crate::node_traits::{CollectibleNode, RunModel};
use crate::pipeline_traits::Sharable;
use vstd::prelude::*;

verus! {

/// Whether a node is ready to run, given what each of its input channels
/// reported: exactly when every one reported satiation.
pub fn all_satiated(reports: &Vec<bool>) -> (r: bool)
    ensures
        r == (forall|i: int| 0 <= i < reports@.len() ==> #[trigger] reports@[i]),
{
    let mut i: usize = 0;
    while i < reports.len()
        invariant
            i <= reports@.len(),
            forall|j: int| 0 <= j < i ==> #[trigger] reports@[j],
        decreases reports@.len() - i,
    {
        if !reports[i] {
            return false;
        }
        i = i + 1;
    }
    true
}

/// Whether the receives of inputs `0..=k` all gave a buffer.
pub open spec fn received_through<T: Sharable>(received: Seq<Option<DataWrapper<T>>>, k: int) -> bool {
    forall|j: int| 0 <= j <= k ==> (#[trigger] received[j]) is Some
}

/// A processing node: `NI` input channels, `NO` output channels, a step `S`
/// that computes from the buffered inputs into the buffered output, and
/// whether that output is ready to be sent.
#[verifier::reject_recursive_types(I)]
#[verifier::reject_recursive_types(O)]
pub struct PipelineNode<I: Sharable, O: Sharable, S, const NI: usize, const NO: usize> {
    step: S,
    input: Vec<WrappedReceiver<I>>,
    output: Vec<WrappedSender<O>>,
    satiated_edges: Vec<usize>,
    initial_state: Option<O>,
    buffered_output: DataWrapper<O>,
    buffered_input: Vec<DataWrapper<I>>,
    output_ready: bool,
    run_model: RunModel,
}

impl<I: Sharable, O: Sharable, S, const NI: usize, const NO: usize> PipelineNode<I, O, S, NI, NO> {
    pub closed spec fn spec_output_ready(&self) -> bool {
        self.output_ready
    }

    pub closed spec fn spec_buffered_output(&self) -> O {
        self.buffered_output.value()
    }

    pub closed spec fn spec_initial_state(&self) -> Option<O> {
        self.initial_state
    }

    /// The run model given at construction.
    pub closed spec fn spec_base_run_model(&self) -> RunModel {
        self.run_model
    }

    pub closed spec fn spec_satiated_edges(&self) -> Seq<usize> {
        self.satiated_edges@
    }

    /// The destinations of the output channels, in order.
    pub closed spec fn spec_successors(&self) -> Seq<usize> {
        self.output@.map_values(|s: WrappedSender<O>| s.spec_dest_id())
    }

    /// The input channels, in order.
    pub closed spec fn spec_input_channels(&self) -> Seq<WrappedReceiver<I>> {
        self.input@
    }

    /// The sources of the input channels, in order.
    pub closed spec fn spec_predecessors(&self) -> Seq<usize> {
        self.input@.map_values(|r: WrappedReceiver<I>| r.spec_source_id())
    }

    /// Whether the buffers and channels have the sizes the node was made
    /// with.
    pub closed spec fn wf(&self) -> bool {
        &&& self.input@.len() == NI
        &&& self.output@.len() == NO
        &&& self.satiated_edges@.len() == NO
        &&& self.buffered_input@.len() == NI
        &&& self.run_model != RunModel::Communicator
    }

    /// A node over the given channels. With an initial state the node
    /// starts with that value as its output, ready to send; without, the
    /// output holds the default value and nothing is ready.
    pub fn new(
        step: S,
        input: Vec<WrappedReceiver<I>>,
        output: Vec<WrappedSender<O>>,
        initial_state: Option<O>,
        run_model: RunModel,
    ) -> (node: Self)
        requires
            input@.len() == NI,
            output@.len() == NO,
            run_model != RunModel::Communicator,
        ensures
            node.wf(),
            node.spec_output_ready() == initial_state is Some,
            initial_state matches Some(v) ==> node.spec_buffered_output() == v,
            initial_state is None ==> call_ensures(O::default, (), node.spec_buffered_output()),
            node.spec_initial_state() == initial_state,
            node.spec_base_run_model() == run_model,
            node.spec_successors() == output@.map_values(|s: WrappedSender<O>| s.spec_dest_id()),
            node.spec_predecessors() == input@.map_values(|r: WrappedReceiver<I>| r.spec_source_id()),
            node.spec_satiated_edges() == Seq::new(NO as nat, |i: int| 0usize),
    {
        let (output_ready, buffered_data) = match initial_state {
            Some(val) => (true, DataWrapper::new_with_value(val)),
            None => (false, DataWrapper::new()),
        };
        let mut satiated_edges: Vec<usize> = Vec::new();
        let mut buffered_input: Vec<DataWrapper<I>> = Vec::new();
        let mut i: usize = 0;
        while i < NO
            invariant
                i <= NO,
                satiated_edges@ == Seq::new(i as nat, |j: int| 0usize),
            decreases NO - i,
        {
            satiated_edges.push(0);
            i = i + 1;
        }
        let mut j: usize = 0;
        while j < NI
            invariant
                j <= NI,
                buffered_input@.len() == j,
            decreases NI - j,
        {
            buffered_input.push(DataWrapper::new());
            j = j + 1;
        }
        PipelineNode {
            input,
            output,
            step,
            buffered_output: buffered_data,
            initial_state,
            satiated_edges,
            buffered_input,
            output_ready,
            run_model,
        }
    }

    /// Takes the buffers received from the input channels, one per channel
    /// in order (`None` where the sender was gone), into the input buffers,
    /// returning each emptied buffer to its channel's pool; stops with `Err`
    /// at the first `None`. A node without input takes nothing and succeeds.
    pub fn receive_input(&mut self, received: Vec<Option<DataWrapper<I>>>) -> (r: Result<(), ()>)
        requires
            old(self).wf(),
            received@.len() == NI,
        ensures
            r is Ok <==> all_received(received@),
            forall|k: int|
                0 <= k < NI ==> (if received_through(received@, k) {
                    final(self).spec_input(k) == (#[trigger] received@[k])->Some_0.value()
                } else {
                    final(self).spec_input(k) == old(self).spec_input(k)
                }),
            final(self).wf(),
            final(self).spec_predecessors() == old(self).spec_predecessors(),
            final(self).spec_successors() == old(self).spec_successors(),
            final(self).spec_output_ready() == old(self).spec_output_ready(),
            final(self).spec_buffered_output() == old(self).spec_buffered_output(),
            final(self).spec_initial_state() == old(self).spec_initial_state(),
            final(self).spec_base_run_model() == old(self).spec_base_run_model(),
            final(self).spec_satiated_edges() == old(self).spec_satiated_edges(),
    {
        let ghost all = received@;
        let mut idx: usize = 0;
        while idx < self.input.len()
            invariant
                self.wf(),
                idx <= NI,
                all.len() == NI,
                received@ == all,
                forall|j: int| 0 <= j < idx ==> (#[trigger] all[j]) is Some,
                forall|k: int|
                    0 <= k < NI ==> (if k < idx {
                        self.spec_input(k) == (#[trigger] all[k])->Some_0.value()
                    } else {
                        self.spec_input(k) == old(self).spec_input(k)
                    }),
                self.spec_predecessors() == old(self).spec_predecessors(),
                self.spec_successors() == old(self).spec_successors(),
                self.output_ready == old(self).output_ready,
                self.buffered_output == old(self).buffered_output,
                self.initial_state == old(self).initial_state,
                self.run_model == old(self).run_model,
                self.satiated_edges == old(self).satiated_edges,
            decreases NI - idx,
        {
            let ghost preds = self.spec_predecessors();
            let ghost inputs = self.buffered_input@;
            match received[idx] {
                None => {
                    proof {
                        assert forall|k: int| 0 <= k < NI implies (if received_through(all, k) {
                            self.spec_input(k) == (#[trigger] all[k])->Some_0.value()
                        } else {
                            self.spec_input(k) == old(self).spec_input(k)
                        }) by {
                            if k >= idx {
                                assert(!received_through(all, k)) by {
                                    assert(!(all[idx as int] is Some));
                                }
                            }
                        }
                    }
                    return Err(());
                },
                Some(data_wrapper) => {
                    let mut data_wrapper = data_wrapper;
                    self.buffered_input[idx].swap_st(&mut data_wrapper);
                    self.input[idx].refill_buffer(data_wrapper);
                    proof {
                        assert(self.spec_predecessors() =~= preds);
                        assert forall|k: int| 0 <= k < NI && k != idx implies self.buffered_input@[k]
                            == inputs[k] by {}
                    }
                },
            }
            idx = idx + 1;
        }
        proof {
            assert forall|k: int| 0 <= k < NI implies (if received_through(all, k) {
                self.spec_input(k) == (#[trigger] all[k])->Some_0.value()
            } else {
                self.spec_input(k) == old(self).spec_input(k)
            }) by {
                assert(received_through(all, k));
            }
        }
        Ok(())
    }

    /// The number of input buffers.
    pub closed spec fn spec_num_buffered_inputs(&self) -> nat {
        self.buffered_input@.len()
    }

    /// The value buffered for input `k`.
    pub closed spec fn spec_input(&self, k: int) -> I {
        self.buffered_input@[k].value()
    }

    /// Puts a buffer received on input `k` (asynchronously) in place of the
    /// one buffered there, which `data` takes in exchange to go back to the
    /// channel's pool.
    pub fn store_input(&mut self, k: usize, data: &mut DataWrapper<I>)
        requires
            old(self).wf(),
            k < NI,
        ensures
            final(self).wf(),
            final(self).spec_input(k as int) == old(data).value(),
            final(data).value() == old(self).spec_input(k as int),
            forall|j: int| 0 <= j < NI && j != k ==> final(self).spec_input(j) == old(self).spec_input(j),
            final(self).spec_predecessors() == old(self).spec_predecessors(),
            final(self).spec_successors() == old(self).spec_successors(),
            final(self).spec_output_ready() == old(self).spec_output_ready(),
            final(self).spec_buffered_output() == old(self).spec_buffered_output(),
    {
        self.buffered_input[k].swap_st(data);
    }

    /// Ends a computation: the output is ready to send when the step
    /// succeeded and the node has outputs.
    pub fn finish_compute(&mut self, compute_ok: bool)
        ensures
            final(self).spec_output_ready() == (compute_ok && NO != 0),
            final(self).wf() == old(self).wf(),
            final(self).spec_buffered_output() == old(self).spec_buffered_output(),
            final(self).spec_successors() == old(self).spec_successors(),
            final(self).spec_predecessors() == old(self).spec_predecessors(),
    {
        self.output_ready = compute_ok && NO != 0;
    }

    /// Whether output was ready to send; from now on it is not.
    pub fn take_ready_output(&mut self) -> (r: bool)
        ensures
            r == old(self).spec_output_ready(),
            !final(self).spec_output_ready(),
            final(self).wf() == old(self).wf(),
            final(self).spec_buffered_output() == old(self).spec_buffered_output(),
            final(self).spec_successors() == old(self).spec_successors(),
            final(self).spec_predecessors() == old(self).spec_predecessors(),
    {
        let r = self.output_ready;
        self.output_ready = false;
        r
    }

    /// The buffer to send into output channel `k`: a copy of the output for
    /// every channel but the last, the output itself (swapped out) for the
    /// last.
    pub fn stage_output(&mut self, k: usize) -> (r: DataWrapper<O>)
        requires
            old(self).wf(),
            k < NO,
        ensures
            r.value() == old(self).spec_buffered_output(),
            k + 1 < NO ==> final(self).spec_buffered_output() == old(self).spec_buffered_output(),
            final(self).wf(),
            final(self).spec_successors() == old(self).spec_successors(),
            final(self).spec_predecessors() == old(self).spec_predecessors(),
            final(self).spec_output_ready() == old(self).spec_output_ready(),
    {
        let ghost succ = self.spec_successors();
        let r = if k + 1 < NO {
            self.output[k].stage_copy(&mut self.buffered_output)
        } else {
            self.output[k].stage_swap(&mut self.buffered_output)
        };
        proof {
            assert(self.spec_successors() =~= succ);
        }
        r
    }

    /// Records which output channels were satiated after a fan-out, as
    /// `satiation_record` lays it out; returns how many were.
    pub fn record_satiation(&mut self, satiated: &Vec<bool>) -> (r: usize)
        requires
            old(self).wf(),
            satiated@.len() == NO,
            NO > 0,
        ensures
            final(self).wf(),
            (final(self).spec_satiated_edges(), r as nat) == satiation_record(
                satiated@,
                old(self).spec_successors(),
                old(self).spec_satiated_edges(),
                NO as int,
            ),
            final(self).spec_successors() == old(self).spec_successors(),
            final(self).spec_predecessors() == old(self).spec_predecessors(),
            final(self).spec_output_ready() == old(self).spec_output_ready(),
            final(self).spec_buffered_output() == old(self).spec_buffered_output(),
    {
        let dest_ids = self.get_successors();
        let mut edges: Vec<usize> = Vec::new();
        core::mem::swap(&mut edges, &mut self.satiated_edges);
        let ghost edges0 = edges@;
        let r = record_satiated_edges(satiated, &dest_ids, &mut edges);
        proof {
            lemma_satiation_record_bounds(satiated@, dest_ids@, edges0, NO as int);
        }
        self.satiated_edges = edges;
        r
    }

    /// The step with the buffers it computes from and into.
    pub fn compute_parts(&mut self) -> (r: (&mut S, &mut Vec<DataWrapper<I>>, &mut DataWrapper<O>))
        ensures
            r.1@.len() == old(self).spec_num_buffered_inputs(),
            forall|j: int| 0 <= j < r.1@.len() ==> (#[trigger] r.1@[j]).value() == old(self).spec_input(j),
            r.2.value() == old(self).spec_buffered_output(),
            final(self).spec_buffered_output() == final(r.2).value(),
            final(self).spec_num_buffered_inputs() == final(r.1)@.len(),
            forall|j: int| 0 <= j < final(r.1)@.len() ==> (#[trigger] final(r.1)@[j]).value()
                == final(self).spec_input(j),
            final(self).spec_successors() == old(self).spec_successors(),
            final(self).spec_predecessors() == old(self).spec_predecessors(),
            final(self).spec_output_ready() == old(self).spec_output_ready(),
    {
        (&mut self.step, &mut self.buffered_input, &mut self.buffered_output)
    }

    /// Output channel `k`, for its asynchronous send.
    pub fn output_channel(&mut self, k: usize) -> (r: &mut WrappedSender<O>)
        requires
            k < old(self).spec_successors().len(),
        ensures
            r.spec_dest_id() == old(self).spec_successors()[k as int],
            final(self).spec_successors() == old(self).spec_successors().update(
                k as int,
                final(r).spec_dest_id(),
            ),
            final(self).spec_predecessors() == old(self).spec_predecessors(),
            final(self).spec_output_ready() == old(self).spec_output_ready(),
            final(self).spec_buffered_output() == old(self).spec_buffered_output(),
            final(self).wf() == old(self).wf(),
    {
        &mut self.output[k]
    }

    /// Input channel `k`, for its asynchronous receive.
    pub fn input_channel(&mut self, k: usize) -> (r: &mut WrappedReceiver<I>)
        requires
            k < old(self).spec_predecessors().len(),
        ensures
            r.spec_source_id() == old(self).spec_predecessors()[k as int],
            final(self).spec_predecessors() == old(self).spec_predecessors().update(
                k as int,
                final(r).spec_source_id(),
            ),
            final(self).spec_successors() == old(self).spec_successors(),
            final(self).spec_output_ready() == old(self).spec_output_ready(),
            final(self).spec_buffered_output() == old(self).spec_buffered_output(),
            final(self).wf() == old(self).wf(),
    {
        &mut self.input[k]
    }
}

impl<I: Sharable, O: Sharable, S, const NI: usize, const NO: usize> CollectibleNode for PipelineNode<
    I,
    O,
    S,
    NI,
    NO,
> {
    open spec fn spec_num_inputs(&self) -> usize {
        NI
    }

    open spec fn spec_num_outputs(&self) -> usize {
        NO
    }

    open spec fn spec_has_initial_state(&self) -> bool {
        self.spec_initial_state() is Some
    }

    open spec fn spec_run_model(&self) -> RunModel {
        if self.spec_output_ready() {
            RunModel::Communicator
        } else {
            self.spec_base_run_model()
        }
    }

    open spec fn spec_is_sink(&self) -> bool {
        NO == 0
    }

    fn get_num_inputs(&self) -> (r: usize) {
        NI
    }

    fn get_num_outputs(&self) -> (r: usize) {
        NO
    }

    fn has_initial_state(&self) -> (r: bool) {
        self.initial_state.is_some()
    }

    /// Puts the initial state, if any, back into the output buffer.
    fn load_initial_state(&mut self)
        ensures
            old(self).spec_initial_state() matches Some(v) ==> final(self).spec_buffered_output()
                == v,
            old(self).spec_initial_state() is None ==> final(self).spec_buffered_output() == old(
                self,
            ).spec_buffered_output(),
            final(self).spec_initial_state() == old(self).spec_initial_state(),
            final(self).spec_output_ready() == old(self).spec_output_ready(),
            final(self).wf() == old(self).wf(),
    {
        match self.initial_state {
            Some(val) => self.buffered_output = DataWrapper::new_with_value(val),
            None => {},
        }
    }

    /// Whether every input channel is satiated; a node without input is
    /// always ready.
    fn is_ready_exec(&self) -> (r: bool)
        ensures
            self.spec_predecessors().len() == 0 ==> r,
            exists|reports: Seq<bool>|
                reports.len() == self.spec_input_channels().len() && (forall|j: int|
                    0 <= j < reports.len() ==> call_ensures(
                        WrappedReceiver::<I>::channel_satiated,
                        (&self.spec_input_channels()[j],),
                        #[trigger] reports[j],
                    )) && r == (forall|j: int| 0 <= j < reports.len() ==> #[trigger] reports[j]),
    {
        let mut reports: Vec<bool> = Vec::new();
        let mut i: usize = 0;
        let ghost mut gi: int = 0;
        while i < self.input.len()
            invariant
                i <= self.input@.len(),
                gi == i,
                reports@.len() == i,
                forall|j: int|
                    0 <= j < i ==> call_ensures(
                        WrappedReceiver::<I>::channel_satiated,
                        (&self.spec_input_channels()[j],),
                        #[trigger] reports@[j],
                    ),
            decreases self.input@.len() - i,
        {
            let report = self.input[i].channel_satiated();
            assert(call_ensures(
                WrappedReceiver::<I>::channel_satiated,
                (&self.spec_input_channels()[gi],),
                report,
            ));
            reports.push(report);
            i = i + 1;
            proof {
                gi = gi + 1;
            }
        }
        let r = all_satiated(&reports);
        assert(reports@.len() == self.spec_input_channels().len());
        r
    }

    /// The destinations of the output channels, in order.
    fn get_successors(&self) -> (r: Vec<usize>)
        ensures
            r@ == self.spec_successors(),
    {
        let mut r: Vec<usize> = Vec::new();
        let mut i: usize = 0;
        while i < self.output.len()
            invariant
                i <= self.output@.len(),
                r@ =~= self.spec_successors().take(i as int),
            decreases self.output@.len() - i,
        {
            r.push(*self.output[i].get_dest_id());
            i = i + 1;
        }
        assert(self.spec_successors().take(i as int) =~= self.spec_successors());
        r
    }

    /// A node with output ready is a communicator until it has sent it.
    fn get_run_model(&self) -> (r: RunModel) {
        if self.output_ready {
            RunModel::Communicator
        } else {
            self.run_model
        }
    }

    /// The id recorded in slot `edge_index` of the satiated-edge record;
    /// `None` beyond the number of outputs.
    fn check_nth_satiated_edge_id(&self, edge_index: usize) -> (r: Option<usize>)
        ensures
            edge_index < NO && edge_index < self.spec_satiated_edges().len() ==> r == Some(
                self.spec_satiated_edges()[edge_index as int],
            ),
            edge_index >= NO ==> r is None,
    {
        if edge_index < NO && edge_index < self.satiated_edges.len() {
            Some(self.satiated_edges[edge_index])
        } else {
            None
        }
    }

    fn is_sink(&self) -> (r: bool) {
        NO == 0
    }
}

} // verus!
