use crate::comms_core::{channel_wrapped, WrappedReceiver, WrappedSender, MAX_CHANNEL_BUFFER};
use crate::data_management::BufferArray;
use crate::interleaved_separator::PipelineInterleavedSeparator;
use crate::node_builder::IntoWhat;
use crate::node_traits::RunModel;
use crate::node_types::PipelineNode;
use crate::pipeline_traits::Sharable;
use crate::series_nodes::{PipelineSeriesDeconstructor, PipelineSeriesReconstructor};
use vstd::prelude::*;

verus! {

/// A node being put together: its channels are added one by one, its step
/// and initial state attached, and it is then built into the kind of node
/// that `variant` names.
#[verifier::reject_recursive_types(I)]
#[verifier::reject_recursive_types(O)]
pub struct BuildingNode<I: Sharable, O: Sharable, S, const NI: usize, const NO: usize> {
    id: usize,
    name: String,
    variant: IntoWhat,
    step: Option<S>,
    inputs: Vec<WrappedReceiver<I>>,
    outputs: Vec<WrappedSender<O>>,
    demanded_input_count: usize,
    initial_state: Option<O>,
}

impl<I: Sharable, O: Sharable, S, const NI: usize, const NO: usize> BuildingNode<I, O, S, NI, NO> {
    pub closed spec fn spec_id(&self) -> usize {
        self.id
    }

    pub closed spec fn spec_name(&self) -> Seq<char> {
        self.name@
    }

    pub closed spec fn spec_variant(&self) -> IntoWhat {
        self.variant
    }

    pub closed spec fn spec_step(&self) -> Option<S> {
        self.step
    }

    pub closed spec fn spec_inputs(&self) -> Seq<WrappedReceiver<I>> {
        self.inputs@
    }

    pub closed spec fn spec_outputs(&self) -> Seq<WrappedSender<O>> {
        self.outputs@
    }

    pub closed spec fn spec_demanded_input_count(&self) -> usize {
        self.demanded_input_count
    }

    pub closed spec fn spec_initial_state(&self) -> Option<O> {
        self.initial_state
    }

    /// A node named `name` under the id `id`, to be built as `variant`: no
    /// step, no channel, no initial state, one input demanded.
    pub fn new(id: usize, name: String, variant: IntoWhat) -> (b: Self)
        ensures
            b.spec_id() == id,
            b.spec_name() == name@,
            b.spec_variant() == variant,
            b.spec_step() is None,
            b.spec_inputs().len() == 0,
            b.spec_outputs().len() == 0,
            b.spec_demanded_input_count() == 1,
            b.spec_initial_state() is None,
    {
        BuildingNode {
            id,
            name,
            variant,
            step: None,
            inputs: Vec::new(),
            outputs: Vec::new(),
            demanded_input_count: 1,
            initial_state: None,
        }
    }

    /// Adds an input channel after the others.
    pub fn add_input(&mut self, receiver: WrappedReceiver<I>)
        ensures
            final(self).spec_inputs() == old(self).spec_inputs().push(receiver),
            final(self).spec_outputs() == old(self).spec_outputs(),
            final(self).spec_step() == old(self).spec_step(),
            final(self).spec_id() == old(self).spec_id(),
            final(self).spec_name() == old(self).spec_name(),
            final(self).spec_variant() == old(self).spec_variant(),
            final(self).spec_initial_state() == old(self).spec_initial_state(),
            final(self).spec_demanded_input_count() == old(self).spec_demanded_input_count(),
    {
        self.inputs.push(receiver)
    }

    /// Adds an output channel after the others.
    pub fn add_output(&mut self, sender: WrappedSender<O>)
        ensures
            final(self).spec_outputs() == old(self).spec_outputs().push(sender),
            final(self).spec_inputs() == old(self).spec_inputs(),
            final(self).spec_step() == old(self).spec_step(),
            final(self).spec_id() == old(self).spec_id(),
            final(self).spec_name() == old(self).spec_name(),
            final(self).spec_variant() == old(self).spec_variant(),
            final(self).spec_initial_state() == old(self).spec_initial_state(),
            final(self).spec_demanded_input_count() == old(self).spec_demanded_input_count(),
    {
        self.outputs.push(sender)
    }

    /// Removes every output channel.
    pub fn clear_outputs(&mut self)
        ensures
            final(self).spec_outputs().len() == 0,
            final(self).spec_inputs() == old(self).spec_inputs(),
            final(self).spec_step() == old(self).spec_step(),
            final(self).spec_id() == old(self).spec_id(),
            final(self).spec_name() == old(self).spec_name(),
            final(self).spec_variant() == old(self).spec_variant(),
            final(self).spec_initial_state() == old(self).spec_initial_state(),
            final(self).spec_demanded_input_count() == old(self).spec_demanded_input_count(),
    {
        self.outputs.clear();
    }

    /// Attaches the step, replacing any step attached before.
    pub fn attach_step(&mut self, step: S)
        ensures
            final(self).spec_step() == Some(step),
            final(self).spec_inputs() == old(self).spec_inputs(),
            final(self).spec_outputs() == old(self).spec_outputs(),
            final(self).spec_id() == old(self).spec_id(),
            final(self).spec_name() == old(self).spec_name(),
            final(self).spec_variant() == old(self).spec_variant(),
            final(self).spec_initial_state() == old(self).spec_initial_state(),
            final(self).spec_demanded_input_count() == old(self).spec_demanded_input_count(),
    {
        self.step = Some(step);
    }

    /// Sets how many inputs the node gathers before it runs.
    pub fn set_required_input_count(&mut self, count: usize)
        ensures
            final(self).spec_demanded_input_count() == count,
            final(self).spec_inputs() == old(self).spec_inputs(),
            final(self).spec_outputs() == old(self).spec_outputs(),
            final(self).spec_step() == old(self).spec_step(),
            final(self).spec_id() == old(self).spec_id(),
            final(self).spec_name() == old(self).spec_name(),
            final(self).spec_variant() == old(self).spec_variant(),
            final(self).spec_initial_state() == old(self).spec_initial_state(),
    {
        self.demanded_input_count = count;
    }

    pub fn get_id(&self) -> (r: usize)
        ensures
            r == self.spec_id(),
    {
        self.id
    }

    pub fn get_name(&self) -> (r: String)
        ensures
            r@ == self.spec_name(),
    {
        self.name.clone()
    }

    /// Sets the value the node starts with, ready to send.
    pub fn add_initial_state(&mut self, initial_state: O)
        ensures
            final(self).spec_initial_state() == Some(initial_state),
            final(self).spec_inputs() == old(self).spec_inputs(),
            final(self).spec_outputs() == old(self).spec_outputs(),
            final(self).spec_step() == old(self).spec_step(),
            final(self).spec_id() == old(self).spec_id(),
            final(self).spec_name() == old(self).spec_name(),
            final(self).spec_variant() == old(self).spec_variant(),
            final(self).spec_demanded_input_count() == old(self).spec_demanded_input_count(),
    {
        self.initial_state = Some(initial_state);
    }

    /// Builds the processing node: the step, the channels and the initial
    /// state go into it, and it runs as the variant says.
    fn into_node(self) -> (node: PipelineNode<I, O, S, NI, NO>)
        requires
            self.spec_step() is Some,
            self.spec_inputs().len() == NI,
            self.spec_outputs().len() == NO,
            self.spec_variant() == IntoWhat::CpuNode || self.spec_variant() == IntoWhat::IoNode,
        ensures
            node.wf(),
            node.spec_initial_state() == self.spec_initial_state(),
            node.spec_output_ready() == self.spec_initial_state() is Some,
            node.spec_base_run_model() == if self.spec_variant() == IntoWhat::CpuNode {
                RunModel::CPU
            } else {
                RunModel::IO
            },
            node.spec_successors() == self.spec_outputs().map_values(
                |s: WrappedSender<O>| s.spec_dest_id(),
            ),
            node.spec_predecessors() == self.spec_inputs().map_values(
                |r: WrappedReceiver<I>| r.spec_source_id(),
            ),
    {
        let run_model = self.variant.run_model();
        match self.step {
            Some(step) => PipelineNode::new(
                step,
                self.inputs,
                self.outputs,
                self.initial_state,
                run_model,
            ),
            None => vstd::pervasive::unreached(),
        }
    }

    /// Builds an asynchronous processing node, with its id and name.
    pub fn build_io_node(self) -> (r: (usize, String, PipelineNode<I, O, S, NI, NO>))
        requires
            self.spec_variant() == IntoWhat::IoNode,
            self.spec_step() is Some,
            self.spec_inputs().len() == NI,
            self.spec_outputs().len() == NO,
        ensures
            r.0 == self.spec_id(),
            r.1@ == self.spec_name(),
            r.2.wf(),
            r.2.spec_base_run_model() == RunModel::IO,
            r.2.spec_initial_state() == self.spec_initial_state(),
            r.2.spec_output_ready() == self.spec_initial_state() is Some,
            r.2.spec_successors() == self.spec_outputs().map_values(
                |s: WrappedSender<O>| s.spec_dest_id(),
            ),
            r.2.spec_predecessors() == self.spec_inputs().map_values(
                |r: WrappedReceiver<I>| r.spec_source_id(),
            ),
    {
        let id = self.id;
        let name = self.name.clone();
        let node = self.into_node();
        (id, name, node)
    }

    /// Builds a compute processing node, with its id and name.
    pub fn build_cpu_node(self) -> (r: (usize, String, PipelineNode<I, O, S, NI, NO>))
        requires
            self.spec_variant() == IntoWhat::CpuNode,
            self.spec_step() is Some,
            self.spec_inputs().len() == NI,
            self.spec_outputs().len() == NO,
        ensures
            r.0 == self.spec_id(),
            r.1@ == self.spec_name(),
            r.2.wf(),
            r.2.spec_base_run_model() == RunModel::CPU,
            r.2.spec_initial_state() == self.spec_initial_state(),
            r.2.spec_output_ready() == self.spec_initial_state() is Some,
            r.2.spec_successors() == self.spec_outputs().map_values(
                |s: WrappedSender<O>| s.spec_dest_id(),
            ),
            r.2.spec_predecessors() == self.spec_inputs().map_values(
                |r: WrappedReceiver<I>| r.spec_source_id(),
            ),
    {
        let id = self.id;
        let name = self.name.clone();
        let node = self.into_node();
        (id, name, node)
    }
}

impl<I: Sharable, S, const NO: usize, const ND: usize> BuildingNode<BufferArray<I, ND>, I, S, 1, NO> {
    /// Builds a series deconstructor over the one input channel; it takes
    /// neither a step nor an initial state.
    pub fn build_deconstruct(self) -> (r: (usize, String, PipelineSeriesDeconstructor<I, NO, ND>))
        requires
            self.spec_variant() == IntoWhat::DeconstructorNode,
            self.spec_inputs().len() == 1,
            self.spec_step() is None,
            self.spec_initial_state() is None,
            self.spec_outputs().len() == NO,
        ensures
            r.0 == self.spec_id(),
            r.1@ == self.spec_name(),
            r.2.wf(),
            r.2.spec_successors() == self.spec_outputs().map_values(
                |s: WrappedSender<I>| s.spec_dest_id(),
            ),
    {
        let mut inputs = self.inputs;
        let input = inputs.remove(0);
        let node = PipelineSeriesDeconstructor::new(input, self.outputs);
        (self.id, self.name, node)
    }
}

impl<I: Sharable, S, const NO: usize, const ND: usize> BuildingNode<I, BufferArray<I, ND>, S, 1, NO> {
    /// Builds a series reconstructor over the one input channel, gathering
    /// blocks of the demanded number of values; it takes neither a step nor
    /// an initial state.
    pub fn build_reconstruct(self) -> (r: (usize, String, PipelineSeriesReconstructor<I, NO, ND>))
        requires
            self.spec_variant() == IntoWhat::ReconstructorNode,
            self.spec_inputs().len() == 1,
            self.spec_step() is None,
            self.spec_initial_state() is None,
            self.spec_outputs().len() == NO,
            self.spec_demanded_input_count() == ND,
        ensures
            r.0 == self.spec_id(),
            r.1@ == self.spec_name(),
            r.2.wf(),
            r.2.spec_receive_demands() == ND,
            r.2.spec_successors() == self.spec_outputs().map_values(
                |s: WrappedSender<BufferArray<I, ND>>| s.spec_dest_id(),
            ),
    {
        let mut inputs = self.inputs;
        let input = inputs.remove(0);
        let node = PipelineSeriesReconstructor::new(input, self.outputs, self.demanded_input_count);
        (self.id, self.name, node)
    }
}

impl<I: Sharable, S, const NO: usize, const ND: usize, const NB: usize> BuildingNode<
    BufferArray<I, ND>,
    BufferArray<I, NB>,
    S,
    1,
    NO,
> {
    /// Builds an interleaved separator over the one input channel, which
    /// splits each block of `ND` values into `NO` blocks of `NB`; it takes
    /// neither a step nor an initial state.
    pub fn build_interleave(self) -> (r: (usize, String, PipelineInterleavedSeparator<I, NO, ND, NB>))
        requires
            self.spec_variant() == IntoWhat::InterleaverNode,
            self.spec_inputs().len() == 1,
            self.spec_step() is None,
            self.spec_initial_state() is None,
            self.spec_outputs().len() == NO,
            NO > 0,
            ND == NB * NO,
        ensures
            r.0 == self.spec_id(),
            r.1@ == self.spec_name(),
            r.2.wf(),
            r.2.spec_buffered() is None,
            r.2.spec_successors() == self.spec_outputs().map_values(
                |s: WrappedSender<BufferArray<I, NB>>| s.spec_dest_id(),
            ),
    {
        let mut inputs = self.inputs;
        let input = inputs.remove(0);
        let node = PipelineInterleavedSeparator::new(input, self.outputs);
        (self.id, self.name, node)
    }
}

/// Two building nodes agree on everything but their channels.
pub open spec fn same_settings<I: Sharable, O: Sharable, S, const NI: usize, const NO: usize>(
    a: BuildingNode<I, O, S, NI, NO>,
    b: BuildingNode<I, O, S, NI, NO>,
) -> bool {
    &&& a.spec_id() == b.spec_id()
    &&& a.spec_name() == b.spec_name()
    &&& a.spec_variant() == b.spec_variant()
    &&& a.spec_step() == b.spec_step()
    &&& a.spec_demanded_input_count() == b.spec_demanded_input_count()
    &&& a.spec_initial_state() == b.spec_initial_state()
}

/// Joins `from` to `to` with a new channel of `buffer_size` slots: `from`
/// gets, after its other outputs, the sending end, which names `to`; `to`
/// gets, after its other inputs, the receiving end, which names `from`. The
/// two ends share one back-pressure signal, one satiation level and one
/// buffer pool, and both start stopped.
pub fn connect<
    A: Sharable,
    O: Sharable,
    B: Sharable,
    S1,
    S2,
    const NA: usize,
    const MA: usize,
    const NB: usize,
    const MB: usize,
>(from: &mut BuildingNode<A, O, S1, NA, MA>, to: &mut BuildingNode<O, B, S2, NB, MB>, buffer_size: usize)
    requires
        0 < buffer_size <= MAX_CHANNEL_BUFFER,
    ensures
        final(from).spec_outputs().len() == old(from).spec_outputs().len() + 1,
        final(from).spec_outputs().drop_last() == old(from).spec_outputs(),
        final(from).spec_outputs().last().spec_dest_id() == old(to).spec_id(),
        final(from).spec_inputs() == old(from).spec_inputs(),
        same_settings(*final(from), *old(from)),
        final(to).spec_inputs().len() == old(to).spec_inputs().len() + 1,
        final(to).spec_inputs().drop_last() == old(to).spec_inputs(),
        final(to).spec_inputs().last().spec_source_id() == old(from).spec_id(),
        final(to).spec_outputs() == old(to).spec_outputs(),
        same_settings(*final(to), *old(to)),
        final(from).spec_outputs().last().spec_notify() == final(to).spec_inputs().last().spec_notify(),
        final(from).spec_outputs().last().spec_satiation()
            == final(to).spec_inputs().last().spec_satiation(),
        final(from).spec_outputs().last().spec_pool() == final(to).spec_inputs().last().spec_pool(),
        final(from).spec_outputs().last().spec_is_stopped(),
        final(to).spec_inputs().last().spec_is_stopped(),
        final(to).spec_inputs().last().spec_signals_raised() == 0,
{
    let (sender, receiver) = channel_wrapped::<O>(buffer_size, from.get_id(), to.get_id());
    from.add_output(sender);
    to.add_input(receiver);
    proof {
        assert(from.spec_outputs().drop_last() =~= old(from).spec_outputs());
        assert(to.spec_inputs().drop_last() =~= old(to).spec_inputs());
    }
}

/// Grows a pipeline from its last node: each new node gets its id from the
/// caller and is joined to the last node by a channel of `buffer_size`
/// slots.
#[verifier::reject_recursive_types(I)]
#[verifier::reject_recursive_types(O)]
pub struct NodeBuilder<I: Sharable, O: Sharable, S, const NI: usize, const NO: usize> {
    pub node_predecessor: BuildingNode<I, O, S, NI, NO>,
    pub buffer_size: usize,
}

/// A channel size that a channel can be made with.
pub open spec fn valid_buffer_size(buffer_size: usize) -> bool {
    0 < buffer_size <= MAX_CHANNEL_BUFFER
}

impl<I: Sharable, O: Sharable, S, const NI: usize, const NO: usize> NodeBuilder<I, O, S, NI, NO> {
    /// The id of the last node.
    pub fn get_node_id(&self) -> (r: usize)
        ensures
            r == self.node_predecessor.spec_id(),
    {
        self.node_predecessor.get_id()
    }

    /// A builder whose first node is a source: node `id`, named `name`,
    /// running `source_step`, with no input.
    pub fn add_pipeline_source(
        id: usize,
        name: String,
        variant: IntoWhat,
        source_step: S,
        buffer_size: usize,
    ) -> (b: Self)
        ensures
            b.node_predecessor.spec_id() == id,
            b.node_predecessor.spec_name() == name@,
            b.node_predecessor.spec_variant() == variant,
            b.node_predecessor.spec_step() == Some(source_step),
            b.node_predecessor.spec_inputs().len() == 0,
            b.node_predecessor.spec_outputs().len() == 0,
            b.buffer_size == buffer_size,
    {
        let mut start_node = BuildingNode::new(id, name, variant);
        start_node.attach_step(source_step);
        NodeBuilder { node_predecessor: start_node, buffer_size }
    }

    /// A builder whose first node gathers several inputs: node `id`, named
    /// `name`, running `step`; other branches feed into it.
    pub fn create_joint_node(id: usize, name: String, variant: IntoWhat, step: S, buffer_size: usize) -> (b:
        Self)
        ensures
            b.node_predecessor.spec_id() == id,
            b.node_predecessor.spec_name() == name@,
            b.node_predecessor.spec_variant() == variant,
            b.node_predecessor.spec_step() == Some(step),
            b.node_predecessor.spec_inputs().len() == 0,
            b.node_predecessor.spec_outputs().len() == 0,
            b.buffer_size == buffer_size,
    {
        Self::add_pipeline_source(id, name, variant, step, buffer_size)
    }

    /// Attaches a new node after the last one: node `id`, named `name`, to
    /// be built as `variant`, running `step`, fed by the last node.
    pub fn attach_standard<F: Sharable, S2, const NIN: usize, const NON: usize>(
        &mut self,
        id: usize,
        name: String,
        variant: IntoWhat,
        step: S2,
    ) -> (b: NodeBuilder<O, F, S2, NIN, NON>)
        requires
            valid_buffer_size(old(self).buffer_size),
        ensures
            b.node_predecessor.spec_id() == id,
            b.node_predecessor.spec_name() == name@,
            b.node_predecessor.spec_variant() == variant,
            b.node_predecessor.spec_step() == Some(step),
            b.node_predecessor.spec_inputs().len() == 1,
            b.node_predecessor.spec_inputs()[0].spec_source_id() == old(
                self,
            ).node_predecessor.spec_id(),
            b.node_predecessor.spec_outputs().len() == 0,
            b.node_predecessor.spec_initial_state() is None,
            b.buffer_size == old(self).buffer_size,
            final(self).node_predecessor.spec_outputs().drop_last() == old(
                self,
            ).node_predecessor.spec_outputs(),
            final(self).node_predecessor.spec_outputs().last().spec_dest_id() == id,
            final(self).node_predecessor.spec_inputs() == old(self).node_predecessor.spec_inputs(),
            same_settings(final(self).node_predecessor, old(self).node_predecessor),
            final(self).buffer_size == old(self).buffer_size,
    {
        let mut new_node = BuildingNode::new(id, name, variant);
        new_node.attach_step(step);
        connect(&mut self.node_predecessor, &mut new_node, self.buffer_size);
        proof {
            assert(new_node.spec_inputs().len() == 1);
        }
        NodeBuilder { node_predecessor: new_node, buffer_size: self.buffer_size }
    }

    /// Attaches a new asynchronous node after the last one.
    pub fn attach_standard_io<F: Sharable, S2, const NIN: usize, const NON: usize>(
        &mut self,
        id: usize,
        name: String,
        step: S2,
    ) -> (b: NodeBuilder<O, F, S2, NIN, NON>)
        requires
            valid_buffer_size(old(self).buffer_size),
        ensures
            b.node_predecessor.spec_id() == id,
            b.node_predecessor.spec_variant() == IntoWhat::IoNode,
            b.node_predecessor.spec_step() == Some(step),
            b.node_predecessor.spec_inputs().len() == 1,
            b.node_predecessor.spec_inputs()[0].spec_source_id() == old(
                self,
            ).node_predecessor.spec_id(),
            final(self).node_predecessor.spec_outputs().last().spec_dest_id() == id,
            final(self).node_predecessor.spec_outputs().drop_last() == old(
                self,
            ).node_predecessor.spec_outputs(),
    {
        self.attach_standard(id, name, IntoWhat::IoNode, step)
    }

    /// Attaches a new compute node after the last one.
    pub fn attach_standard_cpu<F: Sharable, S2, const NIN: usize, const NON: usize>(
        &mut self,
        id: usize,
        name: String,
        step: S2,
    ) -> (b: NodeBuilder<O, F, S2, NIN, NON>)
        requires
            valid_buffer_size(old(self).buffer_size),
        ensures
            b.node_predecessor.spec_id() == id,
            b.node_predecessor.spec_variant() == IntoWhat::CpuNode,
            b.node_predecessor.spec_step() == Some(step),
            b.node_predecessor.spec_inputs().len() == 1,
            b.node_predecessor.spec_inputs()[0].spec_source_id() == old(
                self,
            ).node_predecessor.spec_id(),
            final(self).node_predecessor.spec_outputs().last().spec_dest_id() == id,
            final(self).node_predecessor.spec_outputs().drop_last() == old(
                self,
            ).node_predecessor.spec_outputs(),
    {
        self.attach_standard(id, name, IntoWhat::CpuNode, step)
    }

    /// Ends the branch with a sink after the last node: node `id`, named
    /// `name`, running `step`, with no output.
    pub fn add_pipeline_sink<S2>(&mut self, id: usize, name: String, variant: IntoWhat, step: S2) -> (b:
        BuildingNode<O, (), S2, 1, 0>)
        requires
            valid_buffer_size(old(self).buffer_size),
        ensures
            b.spec_id() == id,
            b.spec_name() == name@,
            b.spec_variant() == variant,
            b.spec_step() == Some(step),
            b.spec_inputs().len() == 1,
            b.spec_inputs()[0].spec_source_id() == old(self).node_predecessor.spec_id(),
            b.spec_outputs().len() == 0,
            final(self).node_predecessor.spec_outputs().last().spec_dest_id() == id,
            final(self).node_predecessor.spec_outputs().drop_last() == old(
                self,
            ).node_predecessor.spec_outputs(),
            same_settings(final(self).node_predecessor, old(self).node_predecessor),
            final(self).buffer_size == old(self).buffer_size,
    {
        let next: NodeBuilder<O, (), S2, 1, 0> = self.attach_standard(id, name, variant, step);
        next.node_predecessor
    }

    /// Ends the branch with an asynchronous sink and builds it.
    pub fn add_io_pipeline_sink<S2>(&mut self, id: usize, name: String, step: S2) -> (r: (
        usize,
        String,
        PipelineNode<O, (), S2, 1, 0>,
    ))
        requires
            valid_buffer_size(old(self).buffer_size),
        ensures
            r.0 == id,
            r.1@ == name@,
            r.2.wf(),
            r.2.spec_base_run_model() == RunModel::IO,
            r.2.spec_predecessors() == seq![old(self).node_predecessor.spec_id()],
            final(self).node_predecessor.spec_outputs().last().spec_dest_id() == id,
            final(self).node_predecessor.spec_outputs().drop_last() == old(
                self,
            ).node_predecessor.spec_outputs(),
    {
        let sink = self.add_pipeline_sink(id, name, IntoWhat::IoNode, step);
        let r = sink.build_io_node();
        proof {
            assert(r.2.spec_predecessors() =~= seq![old(self).node_predecessor.spec_id()]);
        }
        r
    }

    /// Ends the branch with a compute sink and builds it.
    pub fn add_cpu_pipeline_sink<S2>(&mut self, id: usize, name: String, step: S2) -> (r: (
        usize,
        String,
        PipelineNode<O, (), S2, 1, 0>,
    ))
        requires
            valid_buffer_size(old(self).buffer_size),
        ensures
            r.0 == id,
            r.1@ == name@,
            r.2.wf(),
            r.2.spec_base_run_model() == RunModel::CPU,
            r.2.spec_predecessors() == seq![old(self).node_predecessor.spec_id()],
            final(self).node_predecessor.spec_outputs().last().spec_dest_id() == id,
            final(self).node_predecessor.spec_outputs().drop_last() == old(
                self,
            ).node_predecessor.spec_outputs(),
    {
        let sink = self.add_pipeline_sink(id, name, IntoWhat::CpuNode, step);
        let r = sink.build_cpu_node();
        proof {
            assert(r.2.spec_predecessors() =~= seq![old(self).node_predecessor.spec_id()]);
        }
        r
    }

    /// Feeds the last node into a joint node that another builder holds.
    pub fn feed_into<F: Sharable, S2, const NIF: usize, const NOF: usize>(
        &mut self,
        joint_builder: &mut NodeBuilder<O, F, S2, NIF, NOF>,
    )
        requires
            valid_buffer_size(old(self).buffer_size),
        ensures
            final(self).node_predecessor.spec_outputs().drop_last() == old(
                self,
            ).node_predecessor.spec_outputs(),
            final(self).node_predecessor.spec_outputs().last().spec_dest_id() == old(
                joint_builder,
            ).node_predecessor.spec_id(),
            final(joint_builder).node_predecessor.spec_inputs().drop_last() == old(
                joint_builder,
            ).node_predecessor.spec_inputs(),
            final(joint_builder).node_predecessor.spec_inputs().last().spec_source_id() == old(
                self,
            ).node_predecessor.spec_id(),
            same_settings(final(self).node_predecessor, old(self).node_predecessor),
            same_settings(final(joint_builder).node_predecessor, old(joint_builder).node_predecessor),
            final(self).buffer_size == old(self).buffer_size,
            final(joint_builder).buffer_size == old(joint_builder).buffer_size,
    {
        connect(&mut self.node_predecessor, &mut joint_builder.node_predecessor, self.buffer_size);
    }

    /// Gives the last node a value to start with, ready to send.
    pub fn add_initial_state(&mut self, initial_state: O)
        ensures
            final(self).node_predecessor.spec_initial_state() == Some(initial_state),
            final(self).node_predecessor.spec_inputs() == old(self).node_predecessor.spec_inputs(),
            final(self).node_predecessor.spec_outputs() == old(self).node_predecessor.spec_outputs(),
            final(self).buffer_size == old(self).buffer_size,
    {
        self.node_predecessor.add_initial_state(initial_state);
    }

    /// Attaches a series reconstructor after the last node: node `id`,
    /// named `name`, gathering blocks of `ND` values.
    pub fn attach_series_reconstructor<const NON: usize, const ND: usize>(
        &mut self,
        id: usize,
        name: String,
    ) -> (b: NodeBuilder<O, BufferArray<O, ND>, (), 1, NON>)
        requires
            valid_buffer_size(old(self).buffer_size),
        ensures
            b.node_predecessor.spec_id() == id,
            b.node_predecessor.spec_variant() == IntoWhat::ReconstructorNode,
            b.node_predecessor.spec_step() is None,
            b.node_predecessor.spec_initial_state() is None,
            b.node_predecessor.spec_demanded_input_count() == ND,
            b.node_predecessor.spec_inputs().len() == 1,
            b.node_predecessor.spec_inputs()[0].spec_source_id() == old(
                self,
            ).node_predecessor.spec_id(),
            b.node_predecessor.spec_outputs().len() == 0,
            b.buffer_size == old(self).buffer_size,
            final(self).node_predecessor.spec_outputs().last().spec_dest_id() == id,
            final(self).node_predecessor.spec_outputs().drop_last() == old(
                self,
            ).node_predecessor.spec_outputs(),
    {
        let mut new_node: BuildingNode<O, BufferArray<O, ND>, (), 1, NON> = BuildingNode::new(
            id,
            name,
            IntoWhat::ReconstructorNode,
        );
        connect(&mut self.node_predecessor, &mut new_node, self.buffer_size);
        new_node.set_required_input_count(ND);
        NodeBuilder { node_predecessor: new_node, buffer_size: self.buffer_size }
    }

    /// Joins the last node to the input of a recipe, whose reserved id is
    /// `mapping_id`: the node gets the sending end, after its other outputs,
    /// and the receiving end, which names the node, is handed back.
    pub fn attach_to_recipe_input(&mut self, mapping_id: usize) -> (r: WrappedReceiver<O>)
        requires
            valid_buffer_size(old(self).buffer_size),
        ensures
            r.spec_source_id() == old(self).node_predecessor.spec_id(),
            final(self).node_predecessor.spec_outputs().len() == old(
                self,
            ).node_predecessor.spec_outputs().len() + 1,
            final(self).node_predecessor.spec_outputs().drop_last() == old(
                self,
            ).node_predecessor.spec_outputs(),
            final(self).node_predecessor.spec_outputs().last().spec_dest_id() == mapping_id,
            final(self).node_predecessor.spec_inputs() == old(self).node_predecessor.spec_inputs(),
            same_settings(final(self).node_predecessor, old(self).node_predecessor),
            final(self).buffer_size == old(self).buffer_size,
    {
        let (sender, receiver) = channel_wrapped::<O>(
            self.buffer_size,
            self.node_predecessor.get_id(),
            mapping_id,
        );
        self.node_predecessor.add_output(sender);
        proof {
            assert(self.node_predecessor.spec_outputs().drop_last() =~= old(
                self,
            ).node_predecessor.spec_outputs());
        }
        receiver
    }

    /// Gives the last node an input that comes from a recipe's output: the
    /// receiving end goes after its other inputs.
    pub fn attach_to_recipe_output(&mut self, receiver: WrappedReceiver<I>)
        ensures
            final(self).node_predecessor.spec_inputs() == old(
                self,
            ).node_predecessor.spec_inputs().push(receiver),
            final(self).node_predecessor.spec_outputs() == old(self).node_predecessor.spec_outputs(),
            same_settings(final(self).node_predecessor, old(self).node_predecessor),
            final(self).buffer_size == old(self).buffer_size,
    {
        self.node_predecessor.add_input(receiver);
    }

    /// Builds the last node as a compute node.
    pub fn submit_cpu(self) -> (r: (usize, String, PipelineNode<I, O, S, NI, NO>))
        requires
            self.node_predecessor.spec_variant() == IntoWhat::CpuNode,
            self.node_predecessor.spec_step() is Some,
            self.node_predecessor.spec_inputs().len() == NI,
            self.node_predecessor.spec_outputs().len() == NO,
        ensures
            r.0 == self.node_predecessor.spec_id(),
            r.1@ == self.node_predecessor.spec_name(),
            r.2.wf(),
            r.2.spec_base_run_model() == RunModel::CPU,
            r.2.spec_initial_state() == self.node_predecessor.spec_initial_state(),
    {
        self.node_predecessor.build_cpu_node()
    }

    /// Builds the last node as an asynchronous node.
    pub fn submit_io(self) -> (r: (usize, String, PipelineNode<I, O, S, NI, NO>))
        requires
            self.node_predecessor.spec_variant() == IntoWhat::IoNode,
            self.node_predecessor.spec_step() is Some,
            self.node_predecessor.spec_inputs().len() == NI,
            self.node_predecessor.spec_outputs().len() == NO,
        ensures
            r.0 == self.node_predecessor.spec_id(),
            r.1@ == self.node_predecessor.spec_name(),
            r.2.wf(),
            r.2.spec_base_run_model() == RunModel::IO,
            r.2.spec_initial_state() == self.node_predecessor.spec_initial_state(),
    {
        self.node_predecessor.build_io_node()
    }
}

impl<I: Sharable, T: Sharable, S, const NI: usize, const NO: usize, const ND: usize> NodeBuilder<
    I,
    BufferArray<T, ND>,
    S,
    NI,
    NO,
> {
    /// Attaches an interleaved separator after the last node, whose blocks
    /// it splits round-robin into one block of `NB` values per output:
    /// node `id`, named `name`.
    pub fn attach_interleaved_separator<const NON: usize, const NB: usize>(
        &mut self,
        id: usize,
        name: String,
    ) -> (b: NodeBuilder<BufferArray<T, ND>, BufferArray<T, NB>, (), 1, NON>)
        requires
            valid_buffer_size(old(self).buffer_size),
        ensures
            b.node_predecessor.spec_id() == id,
            b.node_predecessor.spec_variant() == IntoWhat::InterleaverNode,
            b.node_predecessor.spec_step() is None,
            b.node_predecessor.spec_initial_state() is None,
            b.node_predecessor.spec_inputs().len() == 1,
            b.node_predecessor.spec_inputs()[0].spec_source_id() == old(
                self,
            ).node_predecessor.spec_id(),
            b.node_predecessor.spec_outputs().len() == 0,
            b.buffer_size == old(self).buffer_size,
            final(self).node_predecessor.spec_outputs().last().spec_dest_id() == id,
            final(self).node_predecessor.spec_outputs().drop_last() == old(
                self,
            ).node_predecessor.spec_outputs(),
    {
        let mut new_node: BuildingNode<BufferArray<T, ND>, BufferArray<T, NB>, (), 1, NON> =
            BuildingNode::new(id, name, IntoWhat::InterleaverNode);
        connect(&mut self.node_predecessor, &mut new_node, self.buffer_size);
        NodeBuilder { node_predecessor: new_node, buffer_size: self.buffer_size }
    }

    /// Attaches a series deconstructor after the last node, whose blocks it
    /// splits into single values: node `id`, named `name`.
    pub fn attach_series_deconstructor<const NON: usize>(&mut self, id: usize, name: String) -> (b:
        NodeBuilder<BufferArray<T, ND>, T, (), 1, NON>)
        requires
            valid_buffer_size(old(self).buffer_size),
        ensures
            b.node_predecessor.spec_id() == id,
            b.node_predecessor.spec_variant() == IntoWhat::DeconstructorNode,
            b.node_predecessor.spec_step() is None,
            b.node_predecessor.spec_initial_state() is None,
            b.node_predecessor.spec_inputs().len() == 1,
            b.node_predecessor.spec_inputs()[0].spec_source_id() == old(
                self,
            ).node_predecessor.spec_id(),
            b.node_predecessor.spec_outputs().len() == 0,
            b.buffer_size == old(self).buffer_size,
            final(self).node_predecessor.spec_outputs().last().spec_dest_id() == id,
            final(self).node_predecessor.spec_outputs().drop_last() == old(
                self,
            ).node_predecessor.spec_outputs(),
    {
        let mut new_node: BuildingNode<BufferArray<T, ND>, T, (), 1, NON> = BuildingNode::new(
            id,
            name,
            IntoWhat::DeconstructorNode,
        );
        connect(&mut self.node_predecessor, &mut new_node, self.buffer_size);
        NodeBuilder { node_predecessor: new_node, buffer_size: self.buffer_size }
    }
}

impl<T: Sharable, const NO: usize, const ND: usize, const NB: usize> NodeBuilder<
    BufferArray<T, ND>,
    BufferArray<T, NB>,
    (),
    1,
    NO,
> {
    /// Builds the last node as an interleaved separator.
    pub fn submit_interleaved_separator(self) -> (r: (
        usize,
        String,
        PipelineInterleavedSeparator<T, NO, ND, NB>,
    ))
        requires
            self.node_predecessor.spec_variant() == IntoWhat::InterleaverNode,
            self.node_predecessor.spec_inputs().len() == 1,
            self.node_predecessor.spec_step() is None,
            self.node_predecessor.spec_initial_state() is None,
            self.node_predecessor.spec_outputs().len() == NO,
            NO > 0,
            ND == NB * NO,
        ensures
            r.0 == self.node_predecessor.spec_id(),
            r.1@ == self.node_predecessor.spec_name(),
            r.2.wf(),
            r.2.spec_buffered() is None,
    {
        self.node_predecessor.build_interleave()
    }
}

impl<T: Sharable, const NO: usize, const ND: usize> NodeBuilder<BufferArray<T, ND>, T, (), 1, NO> {
    /// Builds the last node as a series deconstructor.
    pub fn submit_series_deconstructor(self) -> (r: (
        usize,
        String,
        PipelineSeriesDeconstructor<T, NO, ND>,
    ))
        requires
            self.node_predecessor.spec_variant() == IntoWhat::DeconstructorNode,
            self.node_predecessor.spec_inputs().len() == 1,
            self.node_predecessor.spec_step() is None,
            self.node_predecessor.spec_initial_state() is None,
            self.node_predecessor.spec_outputs().len() == NO,
        ensures
            r.0 == self.node_predecessor.spec_id(),
            r.1@ == self.node_predecessor.spec_name(),
            r.2.wf(),
    {
        self.node_predecessor.build_deconstruct()
    }
}

impl<T: Sharable, const NO: usize, const ND: usize> NodeBuilder<T, BufferArray<T, ND>, (), 1, NO> {
    /// Builds the last node as a series reconstructor.
    pub fn submit_series_reconstructor(self) -> (r: (
        usize,
        String,
        PipelineSeriesReconstructor<T, NO, ND>,
    ))
        requires
            self.node_predecessor.spec_variant() == IntoWhat::ReconstructorNode,
            self.node_predecessor.spec_inputs().len() == 1,
            self.node_predecessor.spec_step() is None,
            self.node_predecessor.spec_initial_state() is None,
            self.node_predecessor.spec_outputs().len() == NO,
            self.node_predecessor.spec_demanded_input_count() == ND,
        ensures
            r.0 == self.node_predecessor.spec_id(),
            r.1@ == self.node_predecessor.spec_name(),
            r.2.wf(),
            r.2.spec_receive_demands() == ND,
    {
        self.node_predecessor.build_reconstruct()
    }
}

} // verus!
