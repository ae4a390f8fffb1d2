use zubr_pipeline::building_node::{BuildingNode, NodeBuilder};
use zubr_pipeline::data_management::BufferArray;
use zubr_pipeline::node_builder::IntoWhat;
use zubr_pipeline::node_traits::{CollectibleNode, RunModel};

struct Step(&'static str);

#[test]
fn linear_pipeline_is_wired_by_ids() {
    let mut source: NodeBuilder<(), u32, Step, 0, 1> =
        NodeBuilder::add_pipeline_source(0, "source".to_string(), IntoWhat::CpuNode, Step("s"), 8);
    assert_eq!(source.get_node_id(), 0);

    let mut middle: NodeBuilder<u32, u32, Step, 1, 1> =
        source.attach_standard_cpu(1, "middle".to_string(), Step("m"));
    let (sink_id, sink_name, sink) = middle.add_cpu_pipeline_sink(2, "sink".to_string(), Step("k"));
    assert_eq!(sink_id, 2);
    assert_eq!(sink_name, "sink");
    assert!(sink.is_sink());
    assert_eq!(sink.get_run_model(), RunModel::CPU);

    let (mid_id, mid_name, mid) = middle.submit_cpu();
    assert_eq!((mid_id, mid_name.as_str()), (1, "middle"));
    assert_eq!(mid.get_successors(), vec![2]);
    assert_eq!(mid.get_num_inputs(), 1);

    let (src_id, _, src) = source.submit_cpu();
    assert_eq!(src_id, 0);
    assert_eq!(src.get_successors(), vec![1]);
    assert_eq!(src.get_num_inputs(), 0);
}

#[test]
fn io_nodes_and_initial_state() {
    let mut source: NodeBuilder<(), u8, Step, 0, 1> =
        NodeBuilder::add_pipeline_source(5, "src".to_string(), IntoWhat::IoNode, Step("s"), 2);
    source.add_initial_state(3);
    let (_, _, sink) = source.add_io_pipeline_sink(6, "out".to_string(), Step("o"));
    assert_eq!(sink.get_run_model(), RunModel::IO);
    let (id, _, mut node) = source.submit_io();
    assert_eq!(id, 5);
    assert!(node.has_initial_state());
    assert_eq!(node.get_run_model(), RunModel::Communicator);
    assert_eq!(*node.stage_output(0).read(), 3);
}

#[test]
fn branches_feed_into_a_joint_node() {
    let mut joint: NodeBuilder<u16, u16, Step, 2, 0> =
        NodeBuilder::create_joint_node(9, "joint".to_string(), IntoWhat::CpuNode, Step("j"), 4);
    let mut a: NodeBuilder<(), u16, Step, 0, 1> =
        NodeBuilder::add_pipeline_source(1, "a".to_string(), IntoWhat::CpuNode, Step("a"), 4);
    let mut b: NodeBuilder<(), u16, Step, 0, 1> =
        NodeBuilder::add_pipeline_source(2, "b".to_string(), IntoWhat::CpuNode, Step("b"), 4);
    a.feed_into(&mut joint);
    b.feed_into(&mut joint);
    let (_, _, joint_node) = joint.submit_cpu();
    assert_eq!(joint_node.get_num_inputs(), 2);
    assert!(joint_node.is_sink());
    let (_, _, a_node) = a.submit_cpu();
    assert_eq!(a_node.get_successors(), vec![9]);
}

#[test]
fn series_deconstruct_and_reconstruct() {
    let mut source: NodeBuilder<(), BufferArray<i32, 3>, Step, 0, 1> =
        NodeBuilder::add_pipeline_source(0, "blocks".to_string(), IntoWhat::CpuNode, Step("s"), 4);
    let mut split: NodeBuilder<BufferArray<i32, 3>, i32, (), 1, 1> =
        source.attach_series_deconstructor(1, "split".to_string());
    let mut join: NodeBuilder<i32, BufferArray<i32, 3>, (), 1, 0> =
        split.attach_series_reconstructor::<0, 3>(2, "join".to_string());
    let (_, _, reconstructor) = join.submit_series_reconstructor();
    assert_eq!(reconstructor.receive_demands(), 3);
    let (id, name, deconstructor) = split.submit_series_deconstructor();
    assert_eq!((id, name.as_str()), (1, "split"));
    assert_eq!(deconstructor.get_successors(), vec![2]);
    let (_, _, src) = source.submit_cpu();
    assert_eq!(src.get_successors(), vec![1]);
}

#[test]
fn building_node_settings() {
    let mut b: BuildingNode<u8, u8, Step, 1, 1> =
        BuildingNode::new(4, "n".to_string(), IntoWhat::CpuNode);
    assert_eq!(b.get_id(), 4);
    assert_eq!(b.get_name(), "n");
    b.set_required_input_count(2);
    b.attach_step(Step("x"));
    b.clear_outputs();
    b.add_initial_state(1);
}
