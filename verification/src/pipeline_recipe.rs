use crate::building_node::{valid_buffer_size, NodeBuilder};
use crate::comms_core::{channel_wrapped, WrappedReceiver, WrappedSender};
use crate::pipeline_traits::Sharable;
use vstd::prelude::*;

verus! {

/// An input of a recipe: the channels that feed it, all ending at the
/// recipe's reserved id for that input.
#[verifier::reject_recursive_types(T)]
pub struct RecipeInputMapping<T: Sharable> {
    inputs: Vec<WrappedReceiver<T>>,
    id: usize,
}

impl<T: Sharable> RecipeInputMapping<T> {
    pub closed spec fn spec_id(&self) -> usize {
        self.id
    }

    pub closed spec fn spec_inputs(&self) -> Seq<WrappedReceiver<T>> {
        self.inputs@
    }

    /// A mapping under the reserved id `id`, fed by nothing yet.
    pub fn new(id: usize) -> (m: Self)
        ensures
            m.spec_id() == id,
            m.spec_inputs().len() == 0,
    {
        Self { inputs: Vec::new(), id }
    }

    /// Feeds the mapping from the last node of `builder`.
    pub fn push<I: Sharable, S, const NI: usize, const NO: usize>(
        &mut self,
        builder: &mut NodeBuilder<I, T, S, NI, NO>,
    )
        requires
            valid_buffer_size(old(builder).buffer_size),
        ensures
            final(self).spec_id() == old(self).spec_id(),
            final(self).spec_inputs().len() == old(self).spec_inputs().len() + 1,
            final(self).spec_inputs().drop_last() == old(self).spec_inputs(),
            final(self).spec_inputs().last().spec_source_id() == old(
                builder,
            ).node_predecessor.spec_id(),
            final(builder).node_predecessor.spec_outputs().len() == old(
                builder,
            ).node_predecessor.spec_outputs().len() + 1,
            final(builder).node_predecessor.spec_outputs().drop_last() == old(
                builder,
            ).node_predecessor.spec_outputs(),
            final(builder).node_predecessor.spec_outputs().last().spec_dest_id() == old(
                self,
            ).spec_id(),
            final(builder).buffer_size == old(builder).buffer_size,
    {
        let receiver = builder.attach_to_recipe_input(self.id);
        self.inputs.push(receiver);
        proof {
            assert(self.inputs@.drop_last() =~= old(self).inputs@);
        }
    }
}

/// An output of a recipe: the channels it feeds, all starting at the
/// recipe's reserved id for that output.
#[verifier::reject_recursive_types(T)]
pub struct RecipeOutputMapping<T: Sharable> {
    outputs: Vec<WrappedSender<T>>,
    id: usize,
}

impl<T: Sharable> RecipeOutputMapping<T> {
    pub closed spec fn spec_id(&self) -> usize {
        self.id
    }

    pub closed spec fn spec_outputs(&self) -> Seq<WrappedSender<T>> {
        self.outputs@
    }

    /// A mapping under the reserved id `id`, feeding nothing yet.
    pub fn new(id: usize) -> (m: Self)
        ensures
            m.spec_id() == id,
            m.spec_outputs().len() == 0,
    {
        Self { outputs: Vec::new(), id }
    }

    /// Feeds the last node of `builder` from the mapping, with a channel of
    /// the builder's size.
    pub fn push<F: Sharable, S, const NI: usize, const NO: usize>(
        &mut self,
        builder: &mut NodeBuilder<T, F, S, NI, NO>,
    )
        requires
            valid_buffer_size(old(builder).buffer_size),
        ensures
            final(self).spec_id() == old(self).spec_id(),
            final(self).spec_outputs().len() == old(self).spec_outputs().len() + 1,
            final(self).spec_outputs().drop_last() == old(self).spec_outputs(),
            final(self).spec_outputs().last().spec_dest_id() == old(
                builder,
            ).node_predecessor.spec_id(),
            final(builder).node_predecessor.spec_inputs().len() == old(
                builder,
            ).node_predecessor.spec_inputs().len() + 1,
            final(builder).node_predecessor.spec_inputs().drop_last() == old(
                builder,
            ).node_predecessor.spec_inputs(),
            final(builder).node_predecessor.spec_inputs().last().spec_source_id() == old(
                self,
            ).spec_id(),
            final(builder).buffer_size == old(builder).buffer_size,
    {
        let (sender, receiver) = channel_wrapped::<T>(
            builder.buffer_size,
            self.id,
            builder.get_node_id(),
        );
        builder.attach_to_recipe_output(receiver);
        self.outputs.push(sender);
        proof {
            assert(self.outputs@.drop_last() =~= old(self).outputs@);
            assert(builder.node_predecessor.spec_inputs().drop_last() =~= old(
                builder,
            ).node_predecessor.spec_inputs());
        }
    }
}

/// How often `j` occurs in `s`.
pub open spec fn occurrences(s: Seq<usize>, j: int) -> nat
    decreases s.len(),
{
    if s.len() == 0 {
        0
    } else {
        occurrences(s.drop_last(), j) + if s.last() == j {
            1nat
        } else {
            0nat
        }
    }
}

/// A part of a pipeline packaged for reuse: `NI` inputs and `NO` outputs,
/// each under an id of its own, and the function that builds the inside
/// once the inputs and outputs are wired.
#[verifier::reject_recursive_types(I)]
#[verifier::reject_recursive_types(O)]
pub struct PipelineRecipe<I: Sharable, O: Sharable, B, const NI: usize, const NO: usize> {
    build_function: B,
    inputs: Vec<RecipeInputMapping<I>>,
    outputs: Vec<RecipeOutputMapping<O>>,
}

impl<
    I: Sharable,
    O: Sharable,
    B: FnOnce(Vec<RecipeInputMapping<I>>, Vec<RecipeOutputMapping<O>>),
    const NI: usize,
    const NO: usize,
> PipelineRecipe<I, O, B, NI, NO> {
    pub closed spec fn spec_build_function(&self) -> B {
        self.build_function
    }

    pub closed spec fn spec_inputs(&self) -> Seq<RecipeInputMapping<I>> {
        self.inputs@
    }

    pub closed spec fn spec_outputs(&self) -> Seq<RecipeOutputMapping<O>> {
        self.outputs@
    }

    /// The arguments that the build function is called with.
    pub closed spec fn build_arguments(&self) -> (Vec<RecipeInputMapping<I>>, Vec<RecipeOutputMapping<O>>) {
        (self.inputs, self.outputs)
    }

    /// A recipe whose inputs take the ids from `first_id` on, one each, and
    /// whose outputs take the ids that follow.
    pub fn new(build_function: B, first_id: usize) -> (r: Self)
        requires
            first_id + NI + NO <= usize::MAX,
        ensures
            r.spec_build_function() == build_function,
            r.spec_inputs().len() == NI,
            r.spec_outputs().len() == NO,
            forall|k: int|
                0 <= k < NI ==> (#[trigger] r.spec_inputs()[k]).spec_id() == first_id + k
                    && r.spec_inputs()[k].spec_inputs().len() == 0,
            forall|k: int|
                0 <= k < NO ==> (#[trigger] r.spec_outputs()[k]).spec_id() == first_id + NI + k
                    && r.spec_outputs()[k].spec_outputs().len() == 0,
    {
        let mut inputs: Vec<RecipeInputMapping<I>> = Vec::new();
        let mut k: usize = 0;
        while k < NI
            invariant
                k <= NI,
                first_id + NI + NO <= usize::MAX,
                inputs@.len() == k,
                forall|j: int|
                    0 <= j < k ==> (#[trigger] inputs@[j]).spec_id() == first_id + j
                        && inputs@[j].spec_inputs().len() == 0,
            decreases NI - k,
        {
            inputs.push(RecipeInputMapping::new(first_id + k));
            k = k + 1;
        }
        let mut outputs: Vec<RecipeOutputMapping<O>> = Vec::new();
        let mut k: usize = 0;
        while k < NO
            invariant
                k <= NO,
                first_id + NI + NO <= usize::MAX,
                outputs@.len() == k,
                forall|j: int|
                    0 <= j < k ==> (#[trigger] outputs@[j]).spec_id() == first_id + NI + j
                        && outputs@[j].spec_outputs().len() == 0,
            decreases NO - k,
        {
            outputs.push(RecipeOutputMapping::new(first_id + NI + k));
            k = k + 1;
        }
        Self { build_function, inputs, outputs }
    }

    /// Builds the inside of the recipe from its wired inputs and outputs.
    pub fn build(self)
        requires
            call_requires(self.spec_build_function(), self.build_arguments()),
    {
        let f = self.build_function;
        f(self.inputs, self.outputs)
    }

    /// Feeds the recipe's inputs listed in `mapping` from the last node of
    /// `node_builder`, one channel for each entry of the list.
    pub fn add_input<T: Sharable, S, const NIN: usize, const NON: usize>(
        &mut self,
        node_builder: &mut NodeBuilder<T, I, S, NIN, NON>,
        mapping: Vec<usize>,
    )
        requires
            old(self).spec_inputs().len() == NI,
            forall|k: int| 0 <= k < mapping@.len() ==> #[trigger] mapping@[k] < NI,
            valid_buffer_size(old(node_builder).buffer_size),
        ensures
            final(self).spec_inputs().len() == NI,
            forall|j: int|
                0 <= j < NI ==> (#[trigger] final(self).spec_inputs()[j]).spec_id() == old(
                    self,
                ).spec_inputs()[j].spec_id() && final(self).spec_inputs()[j].spec_inputs().len()
                    == old(self).spec_inputs()[j].spec_inputs().len() + occurrences(mapping@, j),
            final(self).spec_outputs() == old(self).spec_outputs(),
            final(self).spec_build_function() == old(self).spec_build_function(),
            final(node_builder).node_predecessor.spec_outputs().len() == old(
                node_builder,
            ).node_predecessor.spec_outputs().len() + mapping@.len(),
    {
        let mut i: usize = 0;
        while i < mapping.len()
            invariant
                i <= mapping@.len(),
                self.inputs@.len() == NI,
                forall|k: int| 0 <= k < mapping@.len() ==> #[trigger] mapping@[k] < NI,
                valid_buffer_size(node_builder.buffer_size),
                forall|j: int|
                    0 <= j < NI ==> (#[trigger] self.inputs@[j]).spec_id() == old(
                        self,
                    ).spec_inputs()[j].spec_id() && self.inputs@[j].spec_inputs().len() == old(
                        self,
                    ).spec_inputs()[j].spec_inputs().len() + occurrences(
                        mapping@.take(i as int),
                        j,
                    ),
                self.outputs@ == old(self).spec_outputs(),
                self.build_function == old(self).spec_build_function(),
                node_builder.node_predecessor.spec_outputs().len() == old(
                    node_builder,
                ).node_predecessor.spec_outputs().len() + i,
            decreases mapping@.len() - i,
        {
            let internal_node = mapping[i];
            let ghost before = self.inputs@;
            let mut mapping_slot = self.inputs.remove(internal_node);
            mapping_slot.push(node_builder);
            self.inputs.insert(internal_node, mapping_slot);
            proof {
                assert(mapping@.take(i + 1).drop_last() =~= mapping@.take(i as int));
                assert forall|j: int| 0 <= j < NI implies (#[trigger] self.inputs@[j]).spec_id()
                    == old(self).spec_inputs()[j].spec_id() && self.inputs@[j].spec_inputs().len()
                    == old(self).spec_inputs()[j].spec_inputs().len() + occurrences(
                    mapping@.take(i + 1),
                    j,
                ) by {
                    if j != internal_node {
                        assert(self.inputs@[j] == before[j]);
                    }
                }
            }
            i = i + 1;
        }
        proof {
            assert(mapping@.take(mapping@.len() as int) =~= mapping@);
        }
    }

    /// Feeds the last node of `node_builder` from the recipe's outputs listed
    /// in `mapping`, one channel for each entry of the list.
    pub fn feed_into<F: Sharable, S, const NIF: usize, const NOF: usize>(
        &mut self,
        node_builder: &mut NodeBuilder<O, F, S, NIF, NOF>,
        mapping: Vec<usize>,
    )
        requires
            old(self).spec_outputs().len() == NO,
            forall|k: int| 0 <= k < mapping@.len() ==> #[trigger] mapping@[k] < NO,
            valid_buffer_size(old(node_builder).buffer_size),
        ensures
            final(self).spec_outputs().len() == NO,
            forall|j: int|
                0 <= j < NO ==> (#[trigger] final(self).spec_outputs()[j]).spec_id() == old(
                    self,
                ).spec_outputs()[j].spec_id() && final(self).spec_outputs()[j].spec_outputs().len()
                    == old(self).spec_outputs()[j].spec_outputs().len() + occurrences(mapping@, j),
            final(self).spec_inputs() == old(self).spec_inputs(),
            final(self).spec_build_function() == old(self).spec_build_function(),
            final(node_builder).node_predecessor.spec_inputs().len() == old(
                node_builder,
            ).node_predecessor.spec_inputs().len() + mapping@.len(),
    {
        let mut i: usize = 0;
        while i < mapping.len()
            invariant
                i <= mapping@.len(),
                self.outputs@.len() == NO,
                forall|k: int| 0 <= k < mapping@.len() ==> #[trigger] mapping@[k] < NO,
                valid_buffer_size(node_builder.buffer_size),
                forall|j: int|
                    0 <= j < NO ==> (#[trigger] self.outputs@[j]).spec_id() == old(
                        self,
                    ).spec_outputs()[j].spec_id() && self.outputs@[j].spec_outputs().len() == old(
                        self,
                    ).spec_outputs()[j].spec_outputs().len() + occurrences(
                        mapping@.take(i as int),
                        j,
                    ),
                self.inputs@ == old(self).spec_inputs(),
                self.build_function == old(self).spec_build_function(),
                node_builder.node_predecessor.spec_inputs().len() == old(
                    node_builder,
                ).node_predecessor.spec_inputs().len() + i,
            decreases mapping@.len() - i,
        {
            let output_position = mapping[i];
            let ghost before = self.outputs@;
            let mut mapping_slot = self.outputs.remove(output_position);
            mapping_slot.push(node_builder);
            self.outputs.insert(output_position, mapping_slot);
            proof {
                assert(mapping@.take(i + 1).drop_last() =~= mapping@.take(i as int));
                assert forall|j: int| 0 <= j < NO implies (#[trigger] self.outputs@[j]).spec_id()
                    == old(self).spec_outputs()[j].spec_id() && self.outputs@[j].spec_outputs().len()
                    == old(self).spec_outputs()[j].spec_outputs().len() + occurrences(
                    mapping@.take(i + 1),
                    j,
                ) by {
                    if j != output_position {
                        assert(self.outputs@[j] == before[j]);
                    }
                }
            }
            i = i + 1;
        }
        proof {
            assert(mapping@.take(mapping@.len() as int) =~= mapping@);
        }
    }
}

} // verus!
