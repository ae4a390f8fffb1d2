use std::sync::atomic::{AtomicUsize, Ordering};
use std::sync::Arc;
use std::time::Duration;
use tokio::sync::{mpsc, Notify};
use zubr_pipeline::comms_core::{
    channel_wrapped, make_crossbeam_queue_handles, queued_values, receive_value, record_satiated_edges,
    satiation_reached, signal_on_change, take_or_default, WrappedReceiver,
    WrappedSender,
};
use zubr_pipeline::data_management::DataWrapper;
use zubr_pipeline::pipeline_thread::RecvTimeoutError;

#[test]
fn test_channel_wrapped_creation() {
    let (sender, receiver) = channel_wrapped::<i32>(10, 0, 1);

    assert_eq!(*sender.get_dest_id(), 1);
    assert!(sender.is_stopped());
    assert!(receiver.is_stopped());
    assert_eq!(receiver.get_source_id(), 0);
}

#[test]
fn test_wrapped_sender_satiation_capacity() {
    let (mut sender, _receiver) = channel_wrapped::<i32>(10, 0, 1);

    // Initially should not be satiated with default capacity of 1
    assert!(!sender.channel_satiated());

    // Set satiation capacity
    sender.set_satiation_capacity(5);
    assert!(!sender.channel_satiated());
}

#[test]
fn test_wrapped_receiver_satiation_capacity() {
    let (_sender, mut receiver) = channel_wrapped::<i32>(10, 0, 1);

    // Initially should not be satiated
    assert!(!receiver.channel_satiated());

    // Set satiation capacity
    receiver.set_satiation_capacity(3);
    assert!(!receiver.channel_satiated());
}

#[test]
fn test_wrapped_receiver_set_state() {
    let (_sender, mut receiver) = channel_wrapped::<i32>(10, 0, 1);

    assert!(receiver.is_stopped());

    receiver.set_state(false);
    assert!(!receiver.is_stopped());

    receiver.set_state(true);
    assert!(receiver.is_stopped());

    // Setting same state should not change anything
    receiver.set_state(true);
    assert!(receiver.is_stopped());
}

#[test]
fn test_atomic_operations() {
    let capacity = Arc::new(AtomicUsize::new(10));

    assert_eq!(capacity.load(Ordering::Acquire), 10);

    capacity.store(20, Ordering::Release);
    assert_eq!(capacity.load(Ordering::Acquire), 20);

    let old_value = capacity.fetch_add(5, Ordering::AcqRel);
    assert_eq!(old_value, 20);
    assert_eq!(capacity.load(Ordering::Acquire), 25);
}

#[test]
fn test_stage_copy_and_swap() {
    let (mut sender, _receiver) = channel_wrapped::<i32>(4, 0, 1);
    let mut input = DataWrapper::new_with_value(999);
    let mut copied = sender.stage_copy(&mut input);
    assert_eq!(*copied.read(), 999);
    assert_eq!(*input.read(), 999);
    let mut swapped = sender.stage_swap(&mut input);
    assert_eq!(*swapped.read(), 999);
    // the pool buffer held the default value, which the input now holds
    assert_eq!(*input.read(), 0);
}

#[test]
fn test_toggle_stopped() {
    let (mut sender, _receiver) = channel_wrapped::<u8>(2, 3, 4);
    assert!(sender.is_stopped());
    sender.toggle_stopped();
    assert!(!sender.is_stopped());
    sender.toggle_stopped();
    assert!(sender.is_stopped());
}

#[test]
fn test_blocking_receive_and_refill() {
    let (mut sender, mut receiver) = channel_wrapped::<u32>(2, 0, 1);
    let mut input = DataWrapper::new_with_value(123);
    let staged = sender.stage_copy(&mut input);
    let (channel, _) = sender.endpoints();
    channel.try_send(staged).ok().unwrap();
    assert!(sender.channel_satiated());
    assert!(receiver.channel_satiated());
    let got = receiver.channel_mut().blocking_recv();
    assert_eq!(receive_value(&mut receiver, got), Ok(123));
    drop(sender);
    let got = receiver.channel_mut().blocking_recv();
    assert!(got.is_none());
    assert_eq!(receive_value(&mut receiver, got), Err(RecvTimeoutError::Disconnected));
}

#[test]
fn test_record_satiated_edges() {
    // three channels: the first and the last are satiated
    let satiated = vec![true, false, true];
    let dest_ids = vec![7, 8, 9];
    let mut edges = vec![0, 0, 0];
    let n = record_satiated_edges(&satiated, &dest_ids, &mut edges);
    assert_eq!(n, 2);
    assert_eq!(edges, vec![7, 0, 9]);

    // the middle one only
    let satiated = vec![false, true, false];
    let mut edges = vec![0, 0, 0];
    let n = record_satiated_edges(&satiated, &dest_ids, &mut edges);
    assert_eq!(n, 1);
    assert_eq!(edges, vec![8, 0, 0]);
}

#[test]
fn test_wrapped_sender_new() {
    let (tx, _) = mpsc::channel::<DataWrapper<i32>>(10);
    let notify = Arc::new(Notify::new());
    let capacity = Arc::new(AtomicUsize::new(5));
    let (_channel_wrapped_producer, channel_wrapped_consumer) = make_crossbeam_queue_handles(12);

    let sender = WrappedSender::new(tx, 42, notify, capacity, channel_wrapped_consumer);

    assert_eq!(*sender.get_dest_id(), 42);
    assert!(sender.is_stopped());
}

#[test]
fn test_wrapped_receiver_new() {
    let (_, rx) = mpsc::channel::<DataWrapper<i32>>(10);
    let notify = Arc::new(Notify::new());
    let capacity = Arc::new(AtomicUsize::new(5));

    let (channel_wrapped_producer, _channel_wrapped_consumer) = make_crossbeam_queue_handles(12);

    let receiver = WrappedReceiver::new(rx, 24, notify, capacity, channel_wrapped_producer);

    assert_eq!(receiver.get_source_id(), 24);
    assert!(receiver.is_stopped());
}

#[test]
fn test_wrapped_receiver_blocking_recv() {
    let rt = tokio::runtime::Runtime::new().unwrap();

    let (mut sender, mut receiver) = rt.block_on(async { channel_wrapped::<i32>(10, 0, 1) });

    rt.spawn(async move {
        tokio::time::sleep(Duration::from_millis(10)).await;
        let staged = sender.stage_swap(&mut DataWrapper::new_with_value(123));
        let (channel, _) = sender.endpoints();
        channel.send(staged).await.unwrap();
    });

    let mut received = receiver.channel_mut().blocking_recv().unwrap();
    assert_eq!(*received.read(), 123);
}

#[test]
fn channel_helpers_decide_exactly() {
    assert!(satiation_reached(3, 3));
    assert!(!satiation_reached(2, 3));
    assert!(satiation_reached(0, 0));
    assert_eq!(queued_values(10, 7), 3);
    assert_eq!(queued_values(10, 12), 0);
    assert!(signal_on_change(false, true));
    assert!(!signal_on_change(true, true));
    assert!(!signal_on_change(true, false));
    assert!(!signal_on_change(false, false));
    let mut b = take_or_default(Some(DataWrapper::new_with_value(9u32)));
    assert_eq!(*b.read(), 9);
    let mut d = take_or_default::<u32>(None);
    assert_eq!(*d.read(), 0);
}

#[test]
fn fresh_channel_is_not_satiated_and_level_is_shared() {
    let (mut sender, receiver) = channel_wrapped::<u32>(4, 2, 3);
    assert!(!sender.channel_satiated());
    assert!(!receiver.channel_satiated());
    sender.set_satiation_capacity(0);
    assert!(receiver.channel_satiated());
}
