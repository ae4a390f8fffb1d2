use std::sync::atomic::{AtomicBool, Ordering};
use std::sync::Arc;
use zubr_pipeline::node_builder::{PipelineBuildVector, PipelineParameters};
use zubr_pipeline::node_traits::{CollectibleNode, RunModel};
use zubr_pipeline::pipeline_graph::PipelineGraph;
use zubr_pipeline::scheduler::{tasks_to_resubmit, TaskLaunch, TopographicalScheduler};

#[derive(Debug)]
struct MockNode {
    id: usize,
    num_inputs: usize,
    num_outputs: usize,
    has_initial: bool,
    run_model: RunModel,
    ready: bool,
    execution_count: Arc<AtomicBool>,
    is_sink: bool,
}

impl MockNode {
    fn new(
        id: usize,
        num_inputs: usize,
        num_outputs: usize,
        has_initial: bool,
        run_model: RunModel,
    ) -> Self {
        Self {
            id,
            num_inputs,
            num_outputs,
            has_initial,
            run_model,
            ready: true,
            execution_count: Arc::new(AtomicBool::new(false)),
            is_sink: num_outputs == 0,
        }
    }

    fn new_not_ready(id: usize, run_model: RunModel) -> Self {
        Self {
            id,
            num_inputs: 1,
            num_outputs: 1,
            has_initial: false,
            run_model,
            ready: false,
            execution_count: Arc::new(AtomicBool::new(false)),
            is_sink: false,
        }
    }

    fn new_sink(id: usize, run_model: RunModel) -> Self {
        Self {
            id,
            num_inputs: 1,
            num_outputs: 0,
            has_initial: false,
            run_model,
            ready: true,
            execution_count: Arc::new(AtomicBool::new(false)),
            is_sink: true,
        }
    }

    fn run(&self) {
        self.execution_count.store(true, Ordering::Release);
    }
}

impl CollectibleNode for MockNode {
    fn spec_num_inputs(&self) -> usize {
        self.num_inputs
    }
    fn spec_num_outputs(&self) -> usize {
        self.num_outputs
    }
    fn spec_has_initial_state(&self) -> bool {
        self.has_initial
    }
    fn spec_run_model(&self) -> RunModel {
        self.run_model
    }
    fn spec_is_sink(&self) -> bool {
        self.is_sink
    }
    fn get_num_inputs(&self) -> usize {
        self.num_inputs
    }
    fn get_num_outputs(&self) -> usize {
        self.num_outputs
    }
    fn has_initial_state(&self) -> bool {
        self.has_initial
    }
    fn load_initial_state(&mut self) {}
    fn is_ready_exec(&self) -> bool {
        self.ready
    }
    fn get_successors(&self) -> Vec<usize> {
        vec![]
    }
    fn get_run_model(&self) -> RunModel {
        self.run_model
    }
    fn check_nth_satiated_edge_id(&self, _edge_index: usize) -> Option<usize> {
        None
    }
    fn is_sink(&self) -> bool {
        self.is_sink
    }
}

fn create_test_graph() -> PipelineGraph<MockNode> {
    let params = PipelineParameters::new(4);
    let mut build_vector = PipelineBuildVector::new(params);
    build_vector.add_node((0, "source".to_string(), MockNode::new(0, 0, 2, false, RunModel::CPU)));
    build_vector.add_node((1, "processor".to_string(), MockNode::new(1, 2, 1, true, RunModel::IO)));
    build_vector.add_node((
        2,
        "sink".to_string(),
        MockNode::new(2, 1, 0, false, RunModel::Communicator),
    ));
    PipelineGraph::new(build_vector)
}

fn single_node_scheduler(name: &str, node: MockNode) -> TopographicalScheduler<MockNode> {
    let mut build_vector = PipelineBuildVector::new(PipelineParameters::new(4));
    build_vector.add_node((0, name.to_string(), node));
    TopographicalScheduler::new(PipelineGraph::new(build_vector))
}

#[test]
fn test_task_execute_not_ready_node() {
    let params = PipelineParameters::new(4);
    let mut build_vector = PipelineBuildVector::new(params);

    let mock_node = MockNode::new_not_ready(0, RunModel::CPU);
    let execution_flag = mock_node.execution_count.clone();
    build_vector.add_node((0, "not_ready_node".to_string(), mock_node));

    let mut graph = PipelineGraph::new(build_vector);

    assert!(graph.get_node(0).is_some());
    assert!(!execution_flag.load(Ordering::Acquire));
}

#[test]
fn test_task_execute_stopped_pool() {
    let _graph = create_test_graph();
    let run_flag = Arc::new(AtomicBool::new(false));

    assert!(!run_flag.load(Ordering::Acquire));

    run_flag.store(true, Ordering::Release);
    assert!(run_flag.load(Ordering::Acquire));

    run_flag.store(false, Ordering::Release);
    assert!(!run_flag.load(Ordering::Acquire));
}

#[test]
fn start_triggers_sources_then_initially_stateful_nodes() {
    let mut scheduler = TopographicalScheduler::new(create_test_graph());
    assert!(!scheduler.is_running());
    assert_eq!(scheduler.start(), vec![0, 1]);
    assert!(scheduler.is_running());
    scheduler.stop();
    assert!(!scheduler.is_running());
}

#[test]
fn ready_cpu_node_gets_a_compute_task() {
    let mut scheduler = single_node_scheduler("cpu_node", MockNode::new(0, 1, 1, false, RunModel::CPU));
    scheduler.start();
    match scheduler.task_execute(0) {
        TaskLaunch::Compute(node) => {
            node.run();
            assert!(node.execution_count.load(Ordering::Acquire));
            assert_eq!(node.id, 0);
        }
        _ => panic!("a ready compute node must be launched on a compute thread"),
    }
    // the node is held by the task, not by the graph
    assert!(matches!(scheduler.task_execute(0), TaskLaunch::Absent));
}

#[test]
fn ready_io_node_gets_an_async_task() {
    let mut scheduler = single_node_scheduler("io_node", MockNode::new(0, 1, 1, false, RunModel::IO));
    scheduler.start();
    assert!(matches!(scheduler.task_execute(0), TaskLaunch::Io(_)));
}

#[test]
fn communicator_node_gets_a_sender_task() {
    let mut scheduler =
        single_node_scheduler("comm_node", MockNode::new(0, 1, 1, false, RunModel::Communicator));
    scheduler.start();
    assert!(matches!(scheduler.task_execute(0), TaskLaunch::Sender(_)));
}

#[test]
fn communicator_sink_is_put_back_and_never_run() {
    let node = MockNode::new_sink(0, RunModel::Communicator);
    let flag = node.execution_count.clone();
    let mut scheduler = single_node_scheduler("comm_node", node);
    scheduler.start();
    assert!(matches!(scheduler.task_execute(0), TaskLaunch::Placed));
    assert!(!flag.load(Ordering::Acquire));
    // it waits in the graph again
    assert!(matches!(scheduler.task_execute(0), TaskLaunch::Placed));
}

#[test]
fn not_ready_node_is_put_back() {
    let mut scheduler = single_node_scheduler("n", MockNode::new_not_ready(0, RunModel::IO));
    scheduler.start();
    assert!(matches!(scheduler.task_execute(0), TaskLaunch::Placed));
}

#[test]
fn stopped_scheduler_launches_nothing() {
    let mut scheduler = single_node_scheduler("n", MockNode::new(0, 1, 1, false, RunModel::CPU));
    assert!(matches!(scheduler.task_execute(0), TaskLaunch::Placed));
    assert!(matches!(scheduler.task_execute(7), TaskLaunch::Absent));
}

#[test]
fn completed_compute_is_recorded_and_node_relaunched() {
    let mut scheduler = single_node_scheduler("n", MockNode::new(0, 1, 1, false, RunModel::CPU));
    scheduler.start();
    let node = match scheduler.task_execute(0) {
        TaskLaunch::Compute(node) => node,
        _ => panic!("expected a compute launch"),
    };
    assert!(matches!(scheduler.complete_compute(0, node, 250), TaskLaunch::Compute(_)));
    let (runs, time, _) = scheduler.graph().get_node_analytics(0);
    assert_eq!(runs, 1);
    assert_eq!(time, 250);
}

#[test]
fn completed_compute_on_stopped_pool_goes_back_to_the_graph() {
    let mut scheduler = single_node_scheduler("n", MockNode::new(0, 1, 1, false, RunModel::CPU));
    scheduler.start();
    let node = match scheduler.task_execute(0) {
        TaskLaunch::Compute(node) => node,
        _ => panic!("expected a compute launch"),
    };
    scheduler.stop();
    assert!(matches!(scheduler.complete_compute(0, node, 9), TaskLaunch::Placed));
    assert!(matches!(scheduler.task_execute(0), TaskLaunch::Placed));
}

#[test]
fn sources_are_resubmitted_after_their_successors() {
    assert_eq!(tasks_to_resubmit(vec![3, 4], 9, true), vec![3, 4, 9]);
    assert_eq!(tasks_to_resubmit(vec![3, 4], 9, false), vec![3, 4]);
    assert_eq!(tasks_to_resubmit(Vec::new(), 1, true), vec![1]);
}

#[test]
fn place_or_launch_launches_exactly_the_ready_compute_nodes() {
    let mut scheduler: TopographicalScheduler<MockNode> = TopographicalScheduler::new(create_test_graph());
    scheduler.start();
    let launched = scheduler.place_or_launch(9, MockNode::new(9, 1, 1, false, RunModel::CPU), true);
    assert!(matches!(launched, TaskLaunch::Compute(_)));
    let placed = scheduler.place_or_launch(9, MockNode::new(9, 1, 1, false, RunModel::CPU), false);
    assert!(matches!(placed, TaskLaunch::Placed));
    let launched = scheduler.place_or_launch(8, MockNode::new(8, 1, 1, false, RunModel::IO), true);
    assert!(matches!(launched, TaskLaunch::Io(_)));
    let sender = scheduler.place_or_launch(7, MockNode::new(7, 1, 1, false, RunModel::Communicator), false);
    assert!(matches!(sender, TaskLaunch::Sender(_)));
    scheduler.stop();
    let placed = scheduler.place_or_launch(6, MockNode::new(6, 1, 1, false, RunModel::CPU), true);
    assert!(matches!(placed, TaskLaunch::Placed));
}
