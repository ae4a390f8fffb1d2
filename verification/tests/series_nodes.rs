use zubr_pipeline::comms_core::channel_wrapped;
use zubr_pipeline::data_management::BufferArray;
use zubr_pipeline::node_traits::{CollectibleNode, RunModel};
use zubr_pipeline::series_nodes::{PipelineSeriesDeconstructor, PipelineSeriesReconstructor};

#[test]
fn test_pipeline_series_deconstructor_new() {
    let (_, input) = channel_wrapped::<BufferArray<i32, 3>>(10, 0, 1);
    let (output1, _) = channel_wrapped::<i32>(10, 0, 1);
    let (output2, _) = channel_wrapped::<i32>(10, 0, 1);

    let deconstructor: PipelineSeriesDeconstructor<i32, 2, 3> =
        PipelineSeriesDeconstructor::new(input, vec![output1, output2]);

    assert_eq!(deconstructor.get_num_inputs(), 1);
    assert_eq!(deconstructor.get_num_outputs(), 2);
    assert!(!deconstructor.has_initial_state());
    assert_eq!(deconstructor.get_run_model(), RunModel::Communicator);
}

#[test]
fn deconstruct_test_get_successors() {
    let (_, input) = channel_wrapped::<BufferArray<i32, 3>>(10, 0, 1);
    let (output1, _) = channel_wrapped::<i32>(10, 0, 1);
    let (output2, _) = channel_wrapped::<i32>(10, 0, 1);

    let deconstructor: PipelineSeriesDeconstructor<i32, 2, 3> =
        PipelineSeriesDeconstructor::new(input, vec![output1, output2]);

    let successors = deconstructor.get_successors();
    assert_eq!(successors.len(), 2);
    assert!(successors.contains(&1));
}

#[test]
fn test_pipeline_series_reconstructor_new() {
    let (_, input) = channel_wrapped::<i32>(10, 0, 1);
    let (output1, _) = channel_wrapped::<BufferArray<i32, 3>>(10, 0, 1);
    let (output2, _) = channel_wrapped::<BufferArray<i32, 3>>(10, 0, 1);

    let reconstructor: PipelineSeriesReconstructor<i32, 2, 3> =
        PipelineSeriesReconstructor::new(input, vec![output1, output2], 3);

    assert_eq!(reconstructor.receive_demands(), 3);
    assert_eq!(reconstructor.get_num_inputs(), 1);
    assert_eq!(reconstructor.get_num_outputs(), 2);
    assert!(!reconstructor.has_initial_state());
    assert_eq!(reconstructor.get_run_model(), RunModel::Communicator);
}

#[test]
fn reconstruct_test_get_successors() {
    let (_, input) = channel_wrapped::<i32>(10, 0, 1);
    let (output1, _) = channel_wrapped::<BufferArray<i32, 2>>(10, 0, 1);
    let (output2, _) = channel_wrapped::<BufferArray<i32, 2>>(10, 0, 1);

    let reconstructor: PipelineSeriesReconstructor<i32, 2, 2> =
        PipelineSeriesReconstructor::new(input, vec![output1, output2], 2);

    let successors = reconstructor.get_successors();
    assert_eq!(successors.len(), 2);
    assert!(successors.contains(&1));
}

#[test]
fn deconstructor_stages_each_item_for_every_output() {
    let (_, input) = channel_wrapped::<BufferArray<i32, 3>>(10, 0, 9);
    let (output1, _) = channel_wrapped::<i32>(10, 9, 4);
    let (output2, _) = channel_wrapped::<i32>(10, 9, 5);
    let mut d: PipelineSeriesDeconstructor<i32, 2, 3> =
        PipelineSeriesDeconstructor::new(input, vec![output1, output2]);
    assert_eq!(d.get_successors(), vec![4, 5]);
    let mut item = 11;
    d.load_item(1, &mut item);
    assert_eq!(item, 0);
    let mut first = d.stage_item(1, 0);
    let mut last = d.stage_item(1, 1);
    assert_eq!(*first.read(), 11);
    assert_eq!(*last.read(), 11);
    assert_eq!(d.record_satiation(&vec![false, true]), 1);
    // the last output records its destination in its own slot
    assert_eq!(d.check_nth_satiated_edge_id(0), Some(0));
    assert_eq!(d.check_nth_satiated_edge_id(1), Some(5));
    assert_eq!(d.check_nth_satiated_edge_id(2), None);
}

#[test]
fn reconstructor_gathers_a_block() {
    let (_, input) = channel_wrapped::<i32>(10, 0, 9);
    let (output1, _) = channel_wrapped::<BufferArray<i32, 2>>(10, 9, 4);
    let mut r: PipelineSeriesReconstructor<i32, 1, 2> =
        PipelineSeriesReconstructor::new(input, vec![output1], 2);
    r.gather(0, 1);
    r.gather(1, 2);
    let mut block = r.stage_block(0);
    assert_eq!(*block.read().read(), [1, 2]);
    assert!(!r.is_sink());
    assert_eq!(r.record_satiation(&vec![true]), 1);
    assert_eq!(r.check_nth_satiated_edge_id(0), Some(4));
}

#[test]
fn deconstructor_sends_item_by_item_to_every_output() {
    let (_, input) = channel_wrapped::<BufferArray<i32, 3>>(10, 0, 1);
    let (output1, _) = channel_wrapped::<i32>(10, 0, 1);
    let (output2, _) = channel_wrapped::<i32>(10, 0, 2);
    let deconstructor: PipelineSeriesDeconstructor<i32, 2, 3> =
        PipelineSeriesDeconstructor::new(input, vec![output1, output2]);
    assert_eq!(
        deconstructor.send_rounds(),
        vec![vec![(0, 0), (0, 1)], vec![(1, 0), (1, 1)], vec![(2, 0), (2, 1)]]
    );
}
