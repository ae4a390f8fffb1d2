use zubr_pipeline::comms_core::{channel_wrapped, WrappedReceiver, WrappedSender};
use zubr_pipeline::data_management::{BufferArray, DataWrapper};
use zubr_pipeline::interleaved_separator::{satiated_destinations, split_block, PipelineInterleavedSeparator};
use zubr_pipeline::node_traits::{CollectibleNode, RunModel};

fn create_test_channels<T: zubr_pipeline::pipeline_traits::Sharable>(
    buffer_size: usize,
) -> (WrappedSender<T>, WrappedReceiver<T>) {
    channel_wrapped::<T>(buffer_size, 0, 1)
}

#[test]
fn test_pipeline_interleaved_separator_new() {
    let (_, input) = create_test_channels::<BufferArray<i32, 6>>(10);
    let (output1, _) = create_test_channels::<BufferArray<i32, 2>>(10);
    let (output2, _) = create_test_channels::<BufferArray<i32, 2>>(10);
    let (output3, _) = create_test_channels::<BufferArray<i32, 2>>(10);

    let separator: PipelineInterleavedSeparator<i32, 3, 6, 2> =
        PipelineInterleavedSeparator::new(input, vec![output1, output2, output3]);

    assert_eq!(separator.get_num_inputs(), 1);
    assert_eq!(separator.get_num_outputs(), 3);
    assert!(!separator.has_initial_state());
    assert_eq!(separator.get_run_model(), RunModel::CPU);
}

#[test]
fn interleaving_test_get_successors() {
    let (_, input) = create_test_channels::<BufferArray<i32, 4>>(10);
    let (output1, _) = create_test_channels::<BufferArray<i32, 2>>(10);
    let (output2, _) = create_test_channels::<BufferArray<i32, 2>>(10);

    let separator: PipelineInterleavedSeparator<i32, 2, 4, 2> =
        PipelineInterleavedSeparator::new(input, vec![output1, output2]);

    let successors = separator.get_successors();
    assert_eq!(successors.len(), 2);
    assert!(successors.contains(&1));
}

#[test]
fn test_get_run_model() {
    let (_, input) = create_test_channels::<BufferArray<i32, 4>>(10);
    let (output1, _) = create_test_channels::<BufferArray<i32, 2>>(10);
    let (output2, _) = create_test_channels::<BufferArray<i32, 2>>(10);

    let separator: PipelineInterleavedSeparator<i32, 2, 4, 2> =
        PipelineInterleavedSeparator::new(input, vec![output1, output2]);

    assert_eq!(separator.get_run_model(), RunModel::CPU);
}

#[test]
fn test_get_run_model_with_buffered_data() {
    let (_, input) = create_test_channels::<BufferArray<i32, 2>>(10);
    let (output1, _) = create_test_channels::<BufferArray<i32, 1>>(10);
    let (output2, _) = create_test_channels::<BufferArray<i32, 1>>(10);

    let mut separator: PipelineInterleavedSeparator<i32, 2, 2, 1> =
        PipelineInterleavedSeparator::new(input, vec![output1, output2]);
    separator.separate(DataWrapper::new_with_value(BufferArray::new_with_value([1, 2])));

    assert_eq!(separator.get_run_model(), RunModel::Communicator);
}

#[test]
fn test_call_thread_cpu() {
    let (mut tx, input) = create_test_channels::<BufferArray<i32, 4>>(10);
    let (output1, _) = create_test_channels::<BufferArray<i32, 2>>(10);
    let (output2, _) = create_test_channels::<BufferArray<i32, 2>>(10);

    let mut separator: PipelineInterleavedSeparator<i32, 2, 4, 2> =
        PipelineInterleavedSeparator::new(input, vec![output1, output2]);

    let staged = tx.stage_swap(&mut DataWrapper::new_with_value(BufferArray::new_with_value([1, 2, 3, 4])));
    tx.endpoints().0.try_send(staged).ok().unwrap();
    let received = separator.input_channel().channel_mut().try_recv().ok().unwrap();
    separator.separate(received);

    let blocks = separator.take_blocks().unwrap();
    assert_eq!(*blocks[0].read(), [1, 3]);
    assert_eq!(*blocks[1].read(), [2, 4]);
    assert!(separator.take_blocks().is_none());
    assert_eq!(separator.get_run_model(), RunModel::CPU);
}

#[test]
fn split_block_goes_round_robin() {
    let block: BufferArray<u8, 6> = BufferArray::new_with_value([0, 1, 2, 3, 4, 5]);
    let blocks: Vec<BufferArray<u8, 2>> = split_block(&block, 3);
    assert_eq!(*blocks[0].read(), [0, 3]);
    assert_eq!(*blocks[1].read(), [1, 4]);
    assert_eq!(*blocks[2].read(), [2, 5]);
}

#[test]
fn satiated_destinations_are_listed_once() {
    assert_eq!(satiated_destinations(&vec![true, false, true, true], &vec![4, 5, 6, 4]), vec![4, 6]);
    assert!(satiated_destinations(&vec![false, false], &vec![1, 2]).is_empty());
}
