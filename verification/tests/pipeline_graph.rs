use zubr_pipeline::node_builder::{PipelineBuildVector, PipelineParameters};
use zubr_pipeline::node_traits::{CollectibleNode, RunModel};
use zubr_pipeline::pipeline_graph::{
    NodeImmutableData, NodeMasterReadData, PipelineGraph, PipelineNodeState,
};

#[derive(Debug)]
struct MockNode {
    id: usize,
    num_inputs: usize,
    num_outputs: usize,
    has_initial: bool,
}

impl MockNode {
    fn new(id: usize, num_inputs: usize, num_outputs: usize, has_initial: bool) -> Self {
        Self { id, num_inputs, num_outputs, has_initial }
    }
}

impl CollectibleNode for MockNode {
    fn spec_num_inputs(&self) -> usize {
        self.num_inputs
    }
    fn spec_num_outputs(&self) -> usize {
        self.num_outputs
    }
    fn spec_has_initial_state(&self) -> bool {
        self.has_initial
    }
    fn spec_run_model(&self) -> RunModel {
        RunModel::CPU
    }
    fn spec_is_sink(&self) -> bool {
        self.num_outputs == 0
    }
    fn get_num_inputs(&self) -> usize {
        self.num_inputs
    }
    fn get_num_outputs(&self) -> usize {
        self.num_outputs
    }
    fn has_initial_state(&self) -> bool {
        self.has_initial
    }
    fn load_initial_state(&mut self) {}
    fn is_ready_exec(&self) -> bool {
        true
    }
    fn get_successors(&self) -> Vec<usize> {
        vec![]
    }
    fn get_run_model(&self) -> RunModel {
        RunModel::CPU
    }
    fn check_nth_satiated_edge_id(&self, _edge_index: usize) -> Option<usize> {
        None
    }
    fn is_sink(&self) -> bool {
        self.num_outputs == 0
    }
}

fn create_test_build_vector() -> PipelineBuildVector<MockNode> {
    let params = PipelineParameters::new(16);
    let mut build_vector = PipelineBuildVector::new(params);
    build_vector.add_node((0, "source".to_string(), MockNode::new(0, 0, 2, false)));
    build_vector.add_node((1, "processor".to_string(), MockNode::new(1, 2, 1, true)));
    build_vector.add_node((2, "sink".to_string(), MockNode::new(2, 1, 0, false)));
    build_vector
}

#[test]
fn test_pipeline_node_state_conversions() {
    assert_eq!(PipelineNodeState::Run.into_u8(), 0);
    assert_eq!(PipelineNodeState::Stop.into_u8(), 1);
    assert_eq!(PipelineNodeState::Dependent.into_u8(), 2);

    assert_eq!(PipelineNodeState::from_u8(0), PipelineNodeState::Run);
    assert_eq!(PipelineNodeState::from_u8(1), PipelineNodeState::Stop);
    assert_eq!(PipelineNodeState::from_u8(2), PipelineNodeState::Dependent);
}

#[test]
fn test_node_master_read_data_new() {
    let data = NodeMasterReadData::new();
    assert_eq!(data.num_executions(), 0);
    assert_eq!(data.last_execution_time_ns(), 0);
    assert_eq!(PipelineNodeState::from_u8(data.current_state()), PipelineNodeState::Stop);
}

#[test]
fn test_node_master_read_data_update_analytics() {
    let mut data = NodeMasterReadData::new();

    data.update_analytics(1500);
    assert_eq!(data.num_executions(), 1);
    assert_eq!(data.last_execution_time_ns(), 1500);

    data.update_analytics(2000);
    assert_eq!(data.num_executions(), 2);
    assert_eq!(data.last_execution_time_ns(), 2000);
}

#[test]
fn test_node_immutable_data_new() {
    let data = NodeImmutableData::new("test_node".to_string(), true, false, true);
    assert_eq!(data.name(), "test_node");
    assert!(data.is_source());
    assert!(!data.is_sink());
    assert!(data.initially_stateful());
}

#[test]
fn test_pipeline_graph_new() {
    let graph = PipelineGraph::new(create_test_build_vector());
    assert_eq!(graph.get_node_name(0), "source");
    assert_eq!(graph.get_node_name(1), "processor");
    assert_eq!(graph.get_node_name(2), "sink");
}

#[test]
fn test_get_all_sources() {
    let graph = PipelineGraph::new(create_test_build_vector());
    let sources = graph.get_all_sources();
    assert_eq!(sources.len(), 1);
    assert!(sources.contains(&0));
}

#[test]
fn test_get_all_sinks() {
    let graph = PipelineGraph::new(create_test_build_vector());
    let sinks = graph.get_all_sinks();
    assert_eq!(sinks.len(), 1);
    assert!(sinks.contains(&2));
}

#[test]
fn test_get_all_initially_stateful() {
    let graph = PipelineGraph::new(create_test_build_vector());
    let stateful = graph.get_all_initially_stateful();
    assert_eq!(stateful.len(), 1);
    assert!(stateful.contains(&1));
}

#[test]
fn test_get_node_analytics() {
    let graph = PipelineGraph::new(create_test_build_vector());
    let (executions, time, state) = graph.get_node_analytics(0);
    assert_eq!(executions, 0);
    assert_eq!(time, 0);
    assert_eq!(state, PipelineNodeState::Stop);
}

#[test]
fn test_update_analytics() {
    let mut graph = PipelineGraph::new(create_test_build_vector());
    graph.update_analytics(0, 1234);
    let (executions, time, _) = graph.get_node_analytics(0);
    assert_eq!(executions, 1);
    assert_eq!(time, 1234);
}

#[test]
fn test_start_stop_source() {
    let mut graph = PipelineGraph::new(create_test_build_vector());
    assert!(graph.start_source(0));
    assert!(graph.stop_source(0));
    assert!(!graph.start_source(999));
    // node 2 is a sink, not a source
    assert!(!graph.stop_source(2));
}

#[test]
fn test_get_and_place_node() {
    let mut graph = PipelineGraph::new(create_test_build_vector());

    let node_data = graph.get_node(1);
    assert!(node_data.is_some());
    let (id, node) = node_data.unwrap();
    assert_eq!(id, 1);
    assert_eq!(node.id, 1);

    let node_data2 = graph.get_node(1);
    assert!(node_data2.is_none());

    let result = graph.place_node(1, node);
    assert!(result.is_some());

    let node_data3 = graph.get_node(1);
    assert!(node_data3.is_some());
}

#[test]
fn test_place_node_twice_keeps_first() {
    let mut graph = PipelineGraph::new(create_test_build_vector());
    assert!(graph.place_node(0, MockNode::new(7, 3, 3, false)).is_none());
    let (_, node) = graph.get_node(0).unwrap();
    assert_eq!(node.id, 0);
}

#[test]
fn test_get_nonexistent_node() {
    let mut graph = PipelineGraph::new(create_test_build_vector());
    let node_data = graph.get_node(999);
    assert!(node_data.is_none());
}

#[test]
fn test_start_stop_all() {
    let graph = PipelineGraph::new(create_test_build_vector());
    graph.start_all();
    graph.stop_all();
}

#[test]
fn test_build_vector_sorted_by_name() {
    let mut build_vector = PipelineBuildVector::new(PipelineParameters::new(4));
    build_vector.add_node((0, "b".to_string(), MockNode::new(0, 0, 1, false)));
    build_vector.add_node((1, "a".to_string(), MockNode::new(1, 1, 1, false)));
    build_vector.add_node((2, "c".to_string(), MockNode::new(2, 1, 0, false)));
    build_vector.add_node((3, "b".to_string(), MockNode::new(3, 1, 0, false)));
    assert_eq!(build_vector.get_parameters().buff_size, 4);
    let ids: Vec<usize> = build_vector.consume().iter().map(|e| e.0).collect();
    assert_eq!(ids, vec![1, 0, 3, 2]);
}

#[test]
fn build_vector_orders_source_processor_sink_by_name() {
    let ids: Vec<usize> = create_test_build_vector().consume().iter().map(|e| e.0).collect();
    assert_eq!(ids, vec![1, 2, 0]);
}
