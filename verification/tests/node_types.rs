use zubr_pipeline::comms_core::channel_wrapped;
use zubr_pipeline::data_management::DataWrapper;
use zubr_pipeline::node_traits::{CollectibleNode, RunModel};
use zubr_pipeline::node_types::{all_satiated, PipelineNode};

struct Doubler;

#[test]
fn node_with_initial_state_starts_ready_to_send() {
    let (_, input) = channel_wrapped::<u32>(4, 0, 1);
    let (output, _) = channel_wrapped::<u32>(4, 1, 2);
    let mut node: PipelineNode<u32, u32, Doubler, 1, 1> =
        PipelineNode::new(Doubler, vec![input], vec![output], Some(7), RunModel::CPU);
    assert!(node.has_initial_state());
    assert_eq!(node.get_run_model(), RunModel::Communicator);
    assert_eq!(node.get_num_inputs(), 1);
    assert_eq!(node.get_num_outputs(), 1);
    assert_eq!(node.get_successors(), vec![2]);
    assert!(!node.is_sink());
    assert!(node.take_ready_output());
    assert_eq!(node.get_run_model(), RunModel::CPU);
    let mut staged = node.stage_output(0);
    assert_eq!(*staged.read(), 7);
}

#[test]
fn node_without_initial_state_waits_for_input() {
    let (_, input) = channel_wrapped::<u32>(4, 0, 1);
    let (output, _) = channel_wrapped::<u32>(4, 1, 2);
    let node: PipelineNode<u32, u32, Doubler, 1, 1> =
        PipelineNode::new(Doubler, vec![input], vec![output], None, RunModel::IO);
    assert!(!node.has_initial_state());
    assert_eq!(node.get_run_model(), RunModel::IO);
    assert!(!node.is_ready_exec());
}

#[test]
fn receive_compute_and_fan_out() {
    let (mut up, input) = channel_wrapped::<u32>(4, 0, 1);
    let (out_a, _rx_a) = channel_wrapped::<u32>(4, 1, 2);
    let (out_b, _rx_b) = channel_wrapped::<u32>(4, 1, 3);
    let mut node: PipelineNode<u32, u32, Doubler, 1, 2> =
        PipelineNode::new(Doubler, vec![input], vec![out_a, out_b], None, RunModel::CPU);

    // the upstream node sends 21
    let staged = up.stage_swap(&mut DataWrapper::new_with_value(21));
    up.endpoints().0.try_send(staged).ok().unwrap();
    assert!(node.is_ready_exec());

    let got = node.input_channel(0).channel_mut().try_recv().ok();
    assert_eq!(node.receive_input(vec![got]), Ok(()));
    {
        let (_step, inputs, output) = node.compute_parts();
        let value = *inputs[0].read();
        *output.read() = value * 2;
    }
    node.finish_compute(true);
    assert_eq!(node.get_run_model(), RunModel::Communicator);

    let mut first = node.stage_output(0);
    let mut last = node.stage_output(1);
    assert_eq!(*first.read(), 42);
    assert_eq!(*last.read(), 42);
    assert_eq!(node.record_satiation(&vec![true, true]), 2);
    assert_eq!(node.check_nth_satiated_edge_id(0), Some(2));
    assert_eq!(node.check_nth_satiated_edge_id(1), Some(3));
    assert_eq!(node.check_nth_satiated_edge_id(2), None);
}

#[test]
fn failed_compute_or_sink_sends_nothing() {
    let (_, input) = channel_wrapped::<u32>(4, 0, 1);
    let mut sink: PipelineNode<u32, u32, Doubler, 1, 0> =
        PipelineNode::new(Doubler, vec![input], vec![], None, RunModel::CPU);
    assert!(sink.is_sink());
    sink.finish_compute(true);
    assert!(!sink.take_ready_output());

    let (_, input) = channel_wrapped::<u32>(4, 0, 1);
    let (output, _) = channel_wrapped::<u32>(4, 1, 2);
    let mut node: PipelineNode<u32, u32, Doubler, 1, 1> =
        PipelineNode::new(Doubler, vec![input], vec![output], None, RunModel::CPU);
    node.finish_compute(false);
    assert!(!node.take_ready_output());
}

#[test]
fn receive_fails_when_the_sender_is_gone() {
    let (up, input) = channel_wrapped::<u32>(4, 0, 1);
    drop(up);
    let (output, _) = channel_wrapped::<u32>(4, 1, 2);
    let mut node: PipelineNode<u32, u32, Doubler, 1, 1> =
        PipelineNode::new(Doubler, vec![input], vec![output], None, RunModel::CPU);
    let got = node.input_channel(0).channel_mut().try_recv().ok();
    assert!(got.is_none());
    assert_eq!(node.receive_input(vec![got]), Err(()));
}

#[test]
fn load_initial_state_refills_the_output() {
    let (_, input) = channel_wrapped::<u32>(4, 0, 1);
    let (output, _) = channel_wrapped::<u32>(4, 1, 2);
    let mut node: PipelineNode<u32, u32, Doubler, 1, 1> =
        PipelineNode::new(Doubler, vec![input], vec![output], Some(5), RunModel::CPU);
    let mut sent = node.stage_output(0);
    assert_eq!(*sent.read(), 5);
    node.load_initial_state();
    let mut again = node.stage_output(0);
    assert_eq!(*again.read(), 5);
}

#[test]
fn node_without_input_is_ready_and_receives_nothing() {
    let (output, _) = channel_wrapped::<u32>(4, 1, 2);
    let mut source: PipelineNode<u32, u32, Doubler, 0, 1> =
        PipelineNode::new(Doubler, vec![], vec![output], None, RunModel::CPU);
    assert!(source.is_ready_exec());
    assert_eq!(source.receive_input(Vec::new()), Ok(()));
}

#[test]
fn readiness_needs_every_input_satiated() {
    assert!(all_satiated(&vec![]));
    assert!(all_satiated(&vec![true, true]));
    assert!(!all_satiated(&vec![true, false, true]));
}
