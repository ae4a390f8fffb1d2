use zubr_pipeline::audio_blocks::{BlockAssembler, PacketRead};
use zubr_pipeline::buffer_management::DataBuffer;
use zubr_pipeline::formats::ODFormat;
use zubr_pipeline::interleaving::deinterleave;
use zubr_pipeline::name_order::name_le;
use zubr_pipeline::node_builder::IntoWhat;
use zubr_pipeline::node_traits::RunModel;
use zubr_pipeline::pipeline_graph::PipelineNodeState;
use zubr_pipeline::pipeline_node::NodeStatus;
use zubr_pipeline::thread_state_space::ThreadStateSpace;

#[test]
fn standard_plan_sends_to_later_channels_then_the_first() {
    let plan = ODFormat::Standard(9).send_plan(&vec![false, false, true, false]);
    assert_eq!(plan, vec![(1, 9), (3, 9), (0, 9)]);
    let plan = ODFormat::Standard(9).send_plan(&vec![true, false]);
    assert_eq!(plan, vec![(1, 9)]);
    let plan = ODFormat::Standard(9).send_plan(&vec![true]);
    assert!(plan.is_empty());
}

#[test]
fn decompose_plan_sends_value_i_to_channel_i() {
    let plan = ODFormat::Decompose(vec![10, 20, 30]).send_plan(&vec![false, true, false]);
    assert_eq!(plan, vec![(0, 10), (2, 30)]);
}

#[test]
fn series_plan_is_one_standard_round_per_value() {
    let plan = ODFormat::Series(vec![1, 2]).send_plan(&vec![false, false]);
    assert_eq!(plan, vec![(1, 1), (0, 1), (1, 2), (0, 2)]);
    let plan = ODFormat::<u8>::Series(vec![]).send_plan(&vec![]);
    assert!(plan.is_empty());
    assert_eq!(ODFormat::Standard(4).unwrap_standard(), 4);
}

#[test]
fn deinterleave_round_robin() {
    let out = deinterleave(&vec![1, 2, 3, 4, 5, 6, 7], 3);
    assert_eq!(out, vec![vec![1, 4, 7], vec![2, 5], vec![3, 6]]);
    let out = deinterleave(&vec![1, 2, 3, 4], 1);
    assert_eq!(out, vec![vec![1, 2, 3, 4]]);
    let out = deinterleave::<u8>(&vec![], 2);
    assert_eq!(out, vec![Vec::<u8>::new(), Vec::new()]);
}

#[test]
fn deinterleave_then_interleave_gives_back_the_input() {
    let input: Vec<u32> = (0..50).collect();
    let channels = deinterleave(&input, 4);
    assert_eq!(channels.iter().map(|c| c.len()).sum::<usize>(), input.len());
    assert_eq!(channels.iter().map(|c| c.len()).collect::<Vec<_>>(), vec![13, 13, 12, 12]);
    let mut rebuilt = Vec::new();
    for k in 0..13 {
        for c in 0..4 {
            if let Some(v) = channels[c].get(k) {
                rebuilt.push(*v);
            }
        }
    }
    assert_eq!(rebuilt, input);
}

fn assemble(a: &mut BlockAssembler<i32>, packets: &mut Vec<PacketRead<i32>>) -> Result<Vec<i32>, String> {
    a.start_block()?;
    while a.wants_packet() {
        let packet = if packets.is_empty() { PacketRead::EndOfStream } else { packets.remove(0) };
        a.on_packet(packet);
    }
    a.finish_block()
}

#[test]
fn blocks_are_cut_then_padded_then_exhausted() {
    let mut a = BlockAssembler::new(4, 3);
    let mut packets = vec![
        PacketRead::Samples(vec![1, 2, 3]),
        PacketRead::Error,
        PacketRead::Samples(vec![4, 5, 6]),
    ];
    assert_eq!(assemble(&mut a, &mut packets), Ok(vec![1, 2, 3, 4]));
    assert_eq!(assemble(&mut a, &mut packets), Ok(vec![5, 6, 0, 0]));
    assert_eq!(assemble(&mut a, &mut packets), Err("EOF reached".to_string()));
}

#[test]
fn too_many_failed_reads_give_a_partial_block() {
    let mut a = BlockAssembler::new(4, 2);
    let mut packets = vec![PacketRead::Samples(vec![7]), PacketRead::Error, PacketRead::Error];
    // the reading stops after two failures in a row; the block is padded
    assert_eq!(assemble(&mut a, &mut packets), Ok(vec![7, 0, 0, 0]));
}

#[test]
fn data_buffer_moves_whole_arrays() {
    let mut b: DataBuffer<u8, 3> = DataBuffer::new();
    assert_eq!(*b.read(), [0, 0, 0]);
    let mut incoming = [1, 2, 3];
    b.move_from_array(&mut incoming);
    assert_eq!(incoming, [0, 0, 0]);
    let mut out = [9, 9, 9];
    b.move_to_array(&mut out);
    assert_eq!(out, [1, 2, 3]);
    assert_eq!(*b.read(), [9, 9, 9]);
}

#[test]
fn names_compare_by_bytes() {
    assert!(name_le(&"a".to_string(), &"b".to_string()));
    assert!(name_le(&"ab".to_string(), &"ab".to_string()));
    assert!(name_le(&"ab".to_string(), &"abc".to_string()));
    assert!(!name_le(&"b".to_string(), &"abc".to_string()));
    assert!(name_le(&"Z".to_string(), &"a".to_string()));
}

#[test]
fn state_codes_and_names() {
    assert_eq!(ThreadStateSpace::RUNNING.to_u8_ref(), 0);
    assert_eq!(ThreadStateSpace::PAUSED.to_u8_ref(), 1);
    assert_eq!(ThreadStateSpace::KILLED.to_u8_ref(), 2);
    assert_eq!(ThreadStateSpace::RUNNING.to_string(), "RUNNING");
    assert_eq!(ThreadStateSpace::PAUSED.to_string(), "PAUSED");
    assert_eq!(ThreadStateSpace::KILLED.to_string(), "KILLED");
    for s in [PipelineNodeState::Run, PipelineNodeState::Stop, PipelineNodeState::Dependent] {
        assert_eq!(PipelineNodeState::from_u8(s.into_u8()), s);
    }
}

#[test]
fn node_status_counts_executions() {
    let mut status = NodeStatus::new();
    assert_eq!(status.num_executions(), 0);
    status.update_analytics(10);
    status.update_analytics(30);
    assert_eq!(status.num_executions(), 2);
    assert_eq!(status.last_execution_time_ns(), 30);
}

#[test]
fn node_kinds_run_models() {
    assert_eq!(IntoWhat::CpuNode.run_model(), RunModel::CPU);
    assert_eq!(IntoWhat::InterleaverNode.run_model(), RunModel::CPU);
    assert_eq!(IntoWhat::IoNode.run_model(), RunModel::IO);
    assert_eq!(IntoWhat::DeconstructorNode.run_model(), RunModel::Communicator);
    assert_eq!(IntoWhat::ReconstructorNode.run_model(), RunModel::Communicator);
}

#[test]
fn sample_cursor_hands_out_samples_in_order() {
    let mut cursor = zubr_pipeline::sample_cursor::SampleCursor::new(vec![0.5f32, -0.25, 1.0]);
    assert_eq!(cursor.remaining_len(), 3);
    assert_eq!(cursor.next_sample(), Some(0.5));
    assert_eq!(cursor.next_sample(), Some(-0.25));
    assert_eq!(cursor.remaining_len(), 1);
    assert_eq!(cursor.next_sample(), Some(1.0));
    assert_eq!(cursor.next_sample(), None);
    assert_eq!(cursor.remaining_len(), 0);
}
