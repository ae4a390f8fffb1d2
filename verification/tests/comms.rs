use std::sync::atomic::AtomicUsize;
use std::sync::mpsc::sync_channel;
use std::sync::Arc;
use zubr_pipeline::comms_core::{channel_wrapped, WrappedReceiver, WrappedSender};
use zubr_pipeline::comms_top_level::{NodeReceiver, NodeSender};
use zubr_pipeline::data_management::DataWrapper;
use zubr_pipeline::interfaces::{ODFormat, ReceiveType};
use zubr_pipeline::linear_comms::{SingleReceiver, SingleSender};
use zubr_pipeline::multichannel_comms::{MultichannelReceiver, MultichannelSender, Reassembler};
use zubr_pipeline::multiplexed_comms::{Demultiplexer, Multiplexer};
use zubr_pipeline::pipeline_thread::RecvTimeoutError;
use zubr_pipeline::std_channels::SendError;
use zubr_pipeline::step_dispatch::{choose_step_handler, receive_joint_input, StepHandler};

fn push(sender: &mut WrappedSender<i32>, value: i32) {
    let staged = sender.stage_swap(&mut DataWrapper::new_with_value(value));
    sender.endpoints().0.try_send(staged).ok().unwrap();
}

fn wrapped_pair() -> (WrappedSender<i32>, WrappedReceiver<i32>) {
    channel_wrapped::<i32>(8, 0, 1)
}

#[test]
fn single_sender_formats() {
    let (tx, rx) = sync_channel::<i32>(16);
    let mut sender = SingleSender::new(tx);
    assert_eq!(sender.send(ODFormat::Standard(1)), Ok(()));
    assert_eq!(sender.send(ODFormat::Repeat(2, 3)), Ok(()));
    assert_eq!(sender.send(ODFormat::Series(vec![4, 5])), Ok(()));
    assert_eq!(sender.send(ODFormat::Repeat(9, 0)), Ok(()));
    assert_eq!(sender.send(ODFormat::Decompose(vec![6, 7])), Err(SendError(7)));
    let got: Vec<i32> = rx.try_iter().collect();
    assert_eq!(got, vec![1, 2, 2, 2, 4, 5]);
}

#[test]
fn single_sender_reports_a_gone_receiver() {
    let (tx, rx) = sync_channel::<i32>(4);
    drop(rx);
    let mut sender = SingleSender::new(tx);
    assert_eq!(sender.send(ODFormat::Standard(3)), Err(SendError(3)));
    assert_eq!(sender.send(ODFormat::Series(vec![8, 9])), Err(SendError(8)));
}

#[test]
fn multichannel_sender_formats() {
    let (tx_a, rx_a) = sync_channel::<i32>(16);
    let (tx_b, rx_b) = sync_channel::<i32>(16);
    let mut sender = MultichannelSender::new();
    sender.add_sender(tx_a);
    sender.add_sender(tx_b);
    assert_eq!(sender.send_all(ODFormat::Standard(1)), Ok(()));
    assert_eq!(sender.send_all(ODFormat::Decompose(vec![10, 20, 30])), Ok(()));
    assert_eq!(sender.send_all(ODFormat::Series(vec![5, 6])), Ok(()));
    assert_eq!(sender.send_all(ODFormat::Repeat(7, 2)), Ok(()));
    let a: Vec<i32> = rx_a.try_iter().collect();
    let b: Vec<i32> = rx_b.try_iter().collect();
    assert_eq!(a, vec![1, 10, 5, 6, 7, 7]);
    assert_eq!(b, vec![1, 20, 5, 6, 7, 7]);
}

#[test]
fn multiplexer_sends_into_the_selected_channel() {
    let (tx_a, rx_a) = sync_channel::<i32>(16);
    let (tx_b, rx_b) = sync_channel::<i32>(16);
    let select = Arc::new(AtomicUsize::new(1));
    let mut mux = Multiplexer::new(select.clone());
    mux.add_sender(tx_a);
    mux.add_sender(tx_b);
    assert_eq!(mux.send(ODFormat::Standard(3)), Ok(()));
    assert_eq!(mux.send(ODFormat::Series(vec![4, 5])), Ok(()));
    select.store(0, std::sync::atomic::Ordering::Release);
    assert_eq!(mux.send(ODFormat::Repeat(6, 2)), Ok(()));
    select.store(5, std::sync::atomic::Ordering::Release);
    assert_eq!(mux.send(ODFormat::Series(vec![8, 9])), Err(SendError(9)));
    assert_eq!(mux.send(ODFormat::Standard(1)), Err(SendError(1)));
    assert_eq!(rx_a.try_iter().collect::<Vec<_>>(), vec![6, 6]);
    assert_eq!(rx_b.try_iter().collect::<Vec<_>>(), vec![3, 4, 5]);
}

#[test]
fn node_sender_dispatches() {
    let (tx, rx) = sync_channel::<i32>(4);
    let mut single = NodeSender::SO(SingleSender::new(tx));
    assert_eq!(single.send(ODFormat::Standard(2)), Ok(()));
    assert_eq!(rx.try_recv().unwrap(), 2);
    let mut sink: NodeSender<i32> = NodeSender::Dummy;
    assert_eq!(sink.send(ODFormat::Standard(2)), Ok(()));
}

/// What the channel of `rx` holds next, without waiting: `None` once the
/// sender is gone and the channel is empty.
fn take(rx: &mut WrappedReceiver<i32>) -> Option<DataWrapper<i32>> {
    rx.channel_mut().try_recv().ok()
}

#[test]
fn single_receiver_receives_singles() {
    let (mut tx, rx) = wrapped_pair();
    let mut receiver = SingleReceiver::new(rx, 100, 3);
    push(&mut tx, 42);
    let got = take(receiver.receiver_mut());
    match receiver.receive(got) {
        Ok(ReceiveType::Single(v)) => assert_eq!(v, 42),
        _ => panic!("expected a single value"),
    }
    drop(tx);
    let got = take(receiver.receiver_mut());
    assert!(got.is_none());
    assert!(matches!(receiver.receive(got), Err(RecvTimeoutError::Disconnected)));
    let rx = receiver.extract_receiver();
    assert_eq!(rx.get_source_id(), 0);
}

#[test]
fn multichannel_receiver_gathers_in_order() {
    let (mut tx_a, rx_a) = wrapped_pair();
    let (mut tx_b, rx_b) = wrapped_pair();
    let mut receiver = MultichannelReceiver::new(10, 1);
    receiver.add_receiver(rx_a);
    receiver.add_receiver(rx_b);
    assert_eq!(receiver.receiver_count(), 2);
    push(&mut tx_a, 1);
    push(&mut tx_b, 2);
    let got = vec![take(receiver.receiver_mut(0)), take(receiver.receiver_mut(1))];
    match receiver.receive(got) {
        Ok(ReceiveType::Multichannel(v)) => assert_eq!(v, vec![1, 2]),
        _ => panic!("expected a multichannel input"),
    }
    push(&mut tx_a, 3);
    drop(tx_b);
    let got = vec![take(receiver.receiver_mut(0)), take(receiver.receiver_mut(1))];
    assert!(matches!(receiver.receive(got), Err(RecvTimeoutError::Disconnected)));
}

#[test]
fn empty_multichannel_receiver_gives_an_empty_input() {
    let mut receiver: MultichannelReceiver<i32> = MultichannelReceiver::new(10, 1);
    match receiver.receive(Vec::new()) {
        Ok(ReceiveType::Multichannel(v)) => assert!(v.is_empty()),
        _ => panic!("expected an empty multichannel input"),
    }
}

#[test]
fn reassembler_collects_a_series() {
    let (mut tx, rx) = wrapped_pair();
    let mut reassembler = Reassembler::new(rx, 3, 10, 1);
    assert_eq!(reassembler.receive_count(), 3);
    push(&mut tx, 7);
    push(&mut tx, 8);
    push(&mut tx, 9);
    let got: Vec<_> = (0..3).map(|_| take(reassembler.receiver_mut())).collect();
    match reassembler.receive(got) {
        Ok(ReceiveType::Reassembled(v)) => assert_eq!(v, vec![7, 8, 9]),
        _ => panic!("expected a reassembled input"),
    }
    push(&mut tx, 1);
    drop(tx);
    let got: Vec<_> = (0..3).map(|_| take(reassembler.receiver_mut())).collect();
    assert!(matches!(reassembler.receive(got), Err(RecvTimeoutError::Disconnected)));
}

#[test]
fn demultiplexer_reads_the_selected_channel() {
    let (mut tx_a, rx_a) = wrapped_pair();
    let (mut tx_b, rx_b) = wrapped_pair();
    let select = Arc::new(AtomicUsize::new(1));
    let mut demux = Demultiplexer::new(select.clone(), 10, 1);
    assert!(matches!(demux.receive(demux.selected(), None), Err(RecvTimeoutError::Disconnected)));
    demux.add_receiver(rx_a);
    demux.add_receiver(rx_b);
    push(&mut tx_a, 5);
    push(&mut tx_b, 6);
    let selected = demux.selected();
    assert_eq!(selected, 1);
    let got = take(demux.receiver_mut(selected));
    assert!(matches!(demux.receive(selected, got), Ok(ReceiveType::Single(6))));
    select.store(0, std::sync::atomic::Ordering::Release);
    let selected = demux.selected();
    let got = take(demux.receiver_mut(selected));
    assert!(matches!(demux.receive(selected, got), Ok(ReceiveType::Single(5))));
    assert!(matches!(demux.receive(7, None), Err(RecvTimeoutError::Disconnected)));
}

#[test]
fn node_receiver_dispatches() {
    let mut source: NodeReceiver<i32> = NodeReceiver::Dummy;
    assert!(matches!(source.receive(0, Vec::new()), Ok(ReceiveType::Dummy)));
    let (mut tx, rx) = wrapped_pair();
    let mut inner = SingleReceiver::new(rx, 1, 1);
    push(&mut tx, 4);
    let got = take(inner.receiver_mut());
    let mut single = NodeReceiver::SI(inner);
    assert!(matches!(single.receive(0, vec![got]), Ok(ReceiveType::Single(4))));
    assert!(matches!(single.receive(0, vec![None]), Err(RecvTimeoutError::Disconnected)));
}

#[test]
fn joint_input_gathers_one_value_per_channel() {
    let (mut tx_a, rx_a) = wrapped_pair();
    let (mut tx_b, rx_b) = wrapped_pair();
    let mut receivers = vec![SingleReceiver::new(rx_a, 1, 1), SingleReceiver::new(rx_b, 1, 1)];
    push(&mut tx_a, 10);
    push(&mut tx_b, 20);
    let got: Vec<_> = receivers.iter_mut().map(|r| take(r.receiver_mut())).collect();
    match receive_joint_input(&mut receivers, got) {
        Ok(ReceiveType::Multichannel(v)) => assert_eq!(v, vec![10, 20]),
        _ => panic!("expected a multichannel input"),
    }
    drop(tx_a);
    push(&mut tx_b, 30);
    let got: Vec<_> = receivers.iter_mut().map(|r| take(r.receiver_mut())).collect();
    assert_eq!(receive_joint_input(&mut receivers, got).map(|_| ()), Err(()));

    let (mut tx, rx) = wrapped_pair();
    let mut one = vec![SingleReceiver::new(rx, 1, 1)];
    push(&mut tx, 3);
    let got = vec![take(one[0].receiver_mut())];
    assert!(matches!(receive_joint_input(&mut one, got), Ok(ReceiveType::Single(3))));
    assert_eq!(receive_joint_input(&mut one, vec![None]).map(|_| ()), Err(()));

    let mut none: Vec<SingleReceiver<i32>> = Vec::new();
    assert!(matches!(receive_joint_input(&mut none, Vec::new()), Ok(ReceiveType::Multichannel(v)) if v.is_empty()));
}

#[test]
fn multichannel_sender_stops_a_round_at_a_gone_channel() {
    let (tx_a, rx_a) = sync_channel::<i32>(16);
    let (tx_b, rx_b) = sync_channel::<i32>(16);
    let (tx_c, rx_c) = sync_channel::<i32>(16);
    drop(rx_b);
    let mut sender = MultichannelSender::new();
    sender.add_sender(tx_a);
    sender.add_sender(tx_b);
    sender.add_sender(tx_c);
    assert_eq!(sender.send_all(ODFormat::Standard(1)), Err(SendError(1)));
    assert_eq!(sender.send_all(ODFormat::Series(vec![2, 3])), Err(SendError(3)));
    assert_eq!(sender.send_all(ODFormat::Decompose(vec![4])), Ok(()));
    assert_eq!(rx_a.try_iter().collect::<Vec<_>>(), vec![1, 2, 3, 4]);
    assert!(rx_c.try_iter().next().is_none());
    let mut empty: MultichannelSender<i32> = MultichannelSender::new();
    assert_eq!(empty.send_all(ODFormat::Standard(1)), Ok(()));
}

#[test]
fn multiplexer_send_selected() {
    let (tx_a, rx_a) = sync_channel::<i32>(16);
    let (tx_b, rx_b) = sync_channel::<i32>(16);
    let mut mux = Multiplexer::new(Arc::new(AtomicUsize::new(0)));
    mux.add_sender(tx_a);
    mux.add_sender(tx_b);
    assert_eq!(mux.send_selected(1, ODFormat::Series(Vec::new())), Ok(()));
    assert_eq!(mux.send_selected(1, ODFormat::Decompose(vec![1, 2])), Err(SendError(2)));
    assert_eq!(mux.send_selected(2, ODFormat::Decompose(vec![1, 2])), Err(SendError(2)));
    assert_eq!(mux.send_selected(0, ODFormat::Repeat(4, 2)), Ok(()));
    assert_eq!(mux.send_selected(2, ODFormat::Standard(9)), Err(SendError(9)));
    assert_eq!(rx_a.try_iter().collect::<Vec<_>>(), vec![4, 4]);
    assert!(rx_b.try_iter().next().is_none());
}

#[test]
fn node_sender_forwards_to_the_inner_sender() {
    let (tx_a, rx_a) = sync_channel::<i32>(16);
    let (tx_b, rx_b) = sync_channel::<i32>(16);
    let mut inner = MultichannelSender::new();
    inner.add_sender(tx_a);
    inner.add_sender(tx_b);
    let mut node = NodeSender::MO(inner);
    assert_eq!(node.send(ODFormat::Decompose(vec![1, 2])), Ok(()));
    assert_eq!(rx_a.try_iter().collect::<Vec<_>>(), vec![1]);
    assert_eq!(rx_b.try_iter().collect::<Vec<_>>(), vec![2]);
    let (tx, rx) = sync_channel::<i32>(4);
    let mut single = NodeSender::SO(SingleSender::new(tx));
    assert_eq!(single.send(ODFormat::Decompose(vec![5, 6])), Err(SendError(6)));
    assert!(rx.try_iter().next().is_none());
}

#[test]
fn step_handler_choice() {
    let single = ReceiveType::Single(1);
    let multi = ReceiveType::Multichannel(vec![1, 2]);
    let reassembled = ReceiveType::Reassembled(vec![1]);
    let dummy: ReceiveType<i32> = ReceiveType::Dummy;
    assert_eq!(choose_step_handler(&single, 1), StepHandler::SingleInSingleOut);
    assert_eq!(choose_step_handler(&single, 3), StepHandler::SingleInMultipleOut);
    assert_eq!(choose_step_handler(&multi, 1), StepHandler::MultipleInSingleOut);
    assert_eq!(choose_step_handler(&multi, 0), StepHandler::MultipleInMultipleOut);
    assert_eq!(choose_step_handler(&reassembled, 1), StepHandler::ReassembledInSingleOut);
    assert_eq!(choose_step_handler(&reassembled, 2), StepHandler::ReassembledInMultipleOut);
    assert_eq!(choose_step_handler(&dummy, 1), StepHandler::DummyInSingleOut);
    assert_eq!(choose_step_handler(&dummy, 2), StepHandler::Unsupported);
}

#[test]
fn receive_type_and_format_names() {
    assert_eq!(ReceiveType::Single(1).to_string(), "Single");
    assert_eq!(ReceiveType::Reassembled(vec![1]).to_string(), "Reassembled");
    assert_eq!(ReceiveType::Multichannel(vec![1]).to_string(), "Multichannel");
    assert_eq!(ReceiveType::<i32>::Dummy.to_string(), "Dummy");
    assert_eq!(ODFormat::Standard(5).unwrap_standard(), 5);
}

#[test]
fn multiplexer_without_channels_gives_the_value_back() {
    let mut mux: Multiplexer<i32> = Multiplexer::new(Arc::new(AtomicUsize::new(0)));
    assert_eq!(mux.send(ODFormat::Standard(4)), Err(SendError(4)));
    assert_eq!(mux.send(ODFormat::Repeat(5, 3)), Err(SendError(5)));
    assert_eq!(mux.send(ODFormat::Series(vec![1, 2])), Err(SendError(2)));
}

#[test]
fn reassembler_of_nothing_reads_nothing() {
    let (_tx, rx) = wrapped_pair();
    let mut reassembler = Reassembler::new(rx, 0, 10, 1);
    assert!(matches!(reassembler.receive(Vec::new()), Ok(ReceiveType::Reassembled(v)) if v.is_empty()));
}

#[test]
fn multiplexer_empty_series_sends_nothing() {
    let (tx, rx) = sync_channel::<i32>(4);
    let select = Arc::new(AtomicUsize::new(0));
    let mut mux = Multiplexer::new(select.clone());
    mux.add_sender(tx);
    assert_eq!(mux.selected(), 0);
    assert_eq!(mux.send(ODFormat::Series(Vec::new())), Ok(()));
    assert!(rx.try_iter().next().is_none());
    select.store(3, std::sync::atomic::Ordering::Release);
    assert_eq!(mux.selected(), 3);
    assert_eq!(mux.send(ODFormat::Series(Vec::new())), Err(SendError(0)));
    let mut node = NodeSender::MUO(mux);
    assert_eq!(node.send(ODFormat::Series(Vec::new())), Err(SendError(0)));
}
