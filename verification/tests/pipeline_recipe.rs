use std::cell::Cell;
use std::rc::Rc;
use zubr_pipeline::building_node::NodeBuilder;
use zubr_pipeline::node_builder::IntoWhat;
use zubr_pipeline::node_traits::CollectibleNode;
use zubr_pipeline::pipeline_recipe::{PipelineRecipe, RecipeInputMapping, RecipeOutputMapping};

struct Step;

#[test]
fn recipe_reserves_consecutive_ids_and_wires_mappings() {
    let built = Rc::new(Cell::new((0usize, 0usize)));
    let seen = built.clone();
    let mut recipe: PipelineRecipe<u32, u32, _, 2, 1> = PipelineRecipe::new(
        move |inputs: Vec<RecipeInputMapping<u32>>, outputs: Vec<RecipeOutputMapping<u32>>| {
            seen.set((inputs.len(), outputs.len()));
        },
        10,
    );

    let mut source: NodeBuilder<(), u32, Step, 0, 3> =
        NodeBuilder::add_pipeline_source(1, "src".to_string(), IntoWhat::CpuNode, Step, 4);
    recipe.add_input(&mut source, vec![0, 1, 1]);

    let mut sink: NodeBuilder<u32, (), Step, 1, 0> =
        NodeBuilder::create_joint_node(2, "sink".to_string(), IntoWhat::CpuNode, Step, 4);
    recipe.feed_into(&mut sink, vec![0]);

    let (_, _, src_node) = source.submit_cpu();
    // the inputs took ids 10 and 11, the output id 12
    assert_eq!(src_node.get_successors(), vec![10, 11, 11]);
    let (_, _, sink_node) = sink.submit_cpu();
    assert_eq!(sink_node.get_num_inputs(), 1);

    recipe.build();
    assert_eq!(built.get(), (2, 1));
}

#[test]
fn mappings_record_their_channels() {
    let mut input: RecipeInputMapping<u8> = RecipeInputMapping::new(7);
    let mut upstream: NodeBuilder<(), u8, Step, 0, 1> =
        NodeBuilder::add_pipeline_source(3, "up".to_string(), IntoWhat::IoNode, Step, 2);
    input.push(&mut upstream);
    let (_, _, node) = upstream.submit_io();
    assert_eq!(node.get_successors(), vec![7]);

    let mut output: RecipeOutputMapping<u8> = RecipeOutputMapping::new(8);
    let mut downstream: NodeBuilder<u8, (), Step, 1, 0> =
        NodeBuilder::create_joint_node(4, "down".to_string(), IntoWhat::IoNode, Step, 2);
    output.push(&mut downstream);
    let (_, _, node) = downstream.submit_io();
    assert_eq!(node.get_num_inputs(), 1);
}
