use crate::data_management::DataWrapper;
use crate::pipeline_thread::RecvTimeoutError;
use crate::pipeline_traits::Sharable;
use crossbeam_queue::ArrayQueue;
use std::sync::atomic::AtomicUsize;
use std::sync::Arc;
use tokio::sync::mpsc::{Receiver as TokioReceiver, Sender as TokioSender};
use tokio::sync::Notify;
use vstd::prelude::*;

verus! {

/// The bounded lock-free queue of `crossbeam_queue` that recycles a channel's
/// buffers.
#[verifier::external_type_specification]
#[verifier::external_body]
#[verifier::reject_recursive_types(T)]
pub struct ExArrayQueue<T>(ArrayQueue<T>);

/// The sending end of a bounded `tokio` channel.
#[verifier::external_type_specification]
#[verifier::external_body]
#[verifier::reject_recursive_types(T)]
pub struct ExTokioSender<T>(TokioSender<T>);

/// The receiving end of a bounded `tokio` channel.
#[verifier::external_type_specification]
#[verifier::external_body]
#[verifier::reject_recursive_types(T)]
pub struct ExTokioReceiver<T>(TokioReceiver<T>);

/// The `tokio` notification primitive that carries back-pressure signals.
#[verifier::external_type_specification]
#[verifier::external_body]
pub struct ExNotify(Notify);

/// The largest buffer a `tokio` bounded channel accepts.
pub const MAX_CHANNEL_BUFFER: usize = usize::MAX >> 3;

/// Every buffer size up to 2^29 - 1 is within the limit, on 32-bit and on
/// 64-bit machines.
pub proof fn lemma_max_channel_buffer_bound()
    ensures
        MAX_CHANNEL_BUFFER >= 0x1FFF_FFFF,
{
    let top: usize = usize::MAX;
    assert(top >= 0xFFFF_FFFF ==> (top >> 3usize) >= 0x1FFF_FFFF) by (bit_vector);
}

/// `crossbeam_queue::ArrayQueue::new`: an empty queue of `cap` slots.
/// What the queue holds is shared between threads, so no contract speaks of
/// it.
#[verifier::external_body]
fn queue_new<T>(cap: usize) -> (q: ArrayQueue<T>)
    requires
        0 < cap <= MAX_CHANNEL_BUFFER + 2,
{
    ArrayQueue::new(cap)
}

/// `crossbeam_queue::ArrayQueue::push`: stores `value` if a slot is free,
/// else gives it back. Whether a slot is free depends on the other threads
/// that share the queue.
#[verifier::external_body]
fn queue_push<T>(q: &ArrayQueue<T>, value: T) -> (r: Result<(), T>)
    ensures
        r matches Err(v) ==> v == value,
{
    q.push(value)
}

/// `crossbeam_queue::ArrayQueue::pop`: takes the oldest value, if any. What
/// comes back depends on the other threads that share the queue.
#[verifier::external_body]
fn queue_pop<T>(q: &ArrayQueue<T>) -> (r: Option<T>) {
    q.pop()
}

/// `tokio::sync::mpsc::channel`: a bounded channel of `buffer` slots.
#[verifier::external_body]
fn tokio_channel<T>(buffer: usize) -> (r: (TokioSender<T>, TokioReceiver<T>))
    requires
        0 < buffer <= MAX_CHANNEL_BUFFER,
{
    tokio::sync::mpsc::channel(buffer)
}

/// `tokio::sync::mpsc::Sender::max_capacity`: the number of slots the channel
/// was made with. Nothing is stated of the number.
pub assume_specification<T>[TokioSender::<T>::max_capacity](s: &TokioSender<T>) -> usize;

/// `tokio::sync::mpsc::Sender::capacity`: the number of free slots at the
/// moment of the call, which the receiving thread changes. Nothing is stated
/// of the number.
pub assume_specification<T>[TokioSender::<T>::capacity](s: &TokioSender<T>) -> usize;

/// `tokio::sync::mpsc::Receiver::len`: the number of values waiting at the
/// moment of the call, which the sending thread changes. Nothing is stated of
/// the number.
pub assume_specification<T>[TokioReceiver::<T>::len](r: &TokioReceiver<T>) -> usize;

/// `tokio::sync::Notify::new`.
#[verifier::external_body]
fn notify_new() -> (n: Notify) {
    Notify::new()
}

/// `tokio::sync::Notify::notify_one`: wakes one waiting task, or lets the
/// next wait return at once.
#[verifier::external_body]
fn notify_one(n: &Notify) {
    n.notify_one()
}

/// `<Arc<T> as Clone>::clone`: another pointer to the same allocation, so
/// the clone points to the same value.
#[verifier::external_body]
fn arc_clone<T>(a: &Arc<T>) -> (r: Arc<T>)
    ensures
        r == *a,
{
    a.clone()
}

/// The receiving side of a channel's buffer pool: where a sender takes the
/// empty buffers it fills.
#[verifier::reject_recursive_types(T)]
pub struct Consumer<T: Sharable> {
    queue: Arc<ArrayQueue<DataWrapper<T>>>,
}

impl<T: Sharable> Consumer<T> {
    /// The pool this handle takes from.
    pub closed spec fn spec_queue(&self) -> Arc<ArrayQueue<DataWrapper<T>>> {
        self.queue
    }

    fn new(queue: Arc<ArrayQueue<DataWrapper<T>>>) -> (c: Self)
        ensures
            c.spec_queue() == queue,
    {
        Consumer { queue }
    }

    fn try_pop(&mut self) -> (r: Option<DataWrapper<T>>)
        ensures
            final(self).spec_queue() == old(self).spec_queue(),
    {
        queue_pop(&*self.queue)
    }
}

/// The giving side of a channel's buffer pool: where a receiver returns the
/// buffers it emptied.
#[verifier::reject_recursive_types(T)]
pub struct Producer<T: Sharable> {
    queue: Arc<ArrayQueue<DataWrapper<T>>>,
}

impl<T: Sharable> Producer<T> {
    /// The pool this handle returns buffers to.
    pub closed spec fn spec_queue(&self) -> Arc<ArrayQueue<DataWrapper<T>>> {
        self.queue
    }

    fn new(queue: Arc<ArrayQueue<DataWrapper<T>>>) -> (p: Self)
        ensures
            p.spec_queue() == queue,
    {
        Producer { queue }
    }

    fn try_push(&mut self, data: DataWrapper<T>) -> (r: Option<()>)
        ensures
            final(self).spec_queue() == old(self).spec_queue(),
    {
        match queue_push(&*self.queue, data) {
            Ok(()) => Some(()),
            Err(_) => None,
        }
    }
}

/// Two handles on one new buffer pool of `capacity` slots.
pub fn make_crossbeam_queue_handles<T: Sharable>(capacity: usize) -> (r: (
    Producer<T>,
    Consumer<T>,
))
    requires
        0 < capacity <= MAX_CHANNEL_BUFFER + 2,
    ensures
        r.0.spec_queue() == r.1.spec_queue(),
{
    let queue = Arc::new(queue_new(capacity));
    (Producer::new(arc_clone(&queue)), Consumer::new(queue))
}

/// The buffer a sender fills next: the one taken from the pool, or, where
/// the pool gave none, a new buffer holding the default value.
pub fn take_or_default<T: Sharable>(popped: Option<DataWrapper<T>>) -> (r: DataWrapper<T>)
    ensures
        popped matches Some(b) ==> r == b,
        popped is None ==> call_ensures(T::default, (), r.value()),
{
    match popped {
        Some(b) => b,
        None => DataWrapper::new(),
    }
}

/// Whether a channel holding `num_elements` values counts as satiated at
/// satiation level `level`.
pub fn satiation_reached(num_elements: usize, level: usize) -> (r: bool)
    ensures
        r == (num_elements >= level),
{
    num_elements >= level
}

/// The number of values waiting in a channel of `max_capacity` slots of
/// which `free_slots` are free (none where more are free than it has).
pub fn queued_values(max_capacity: usize, free_slots: usize) -> (r: usize)
    ensures
        r == (if free_slots <= max_capacity {
            max_capacity - free_slots
        } else {
            0
        }),
{
    max_capacity.saturating_sub(free_slots)
}

/// Whether a change of a receiver's state from `was_stopped` to
/// `now_stopped` raises the back-pressure signal: exactly when a running
/// receiver stops.
pub fn signal_on_change(was_stopped: bool, now_stopped: bool) -> (r: bool)
    ensures
        r == (!was_stopped && now_stopped),
{
    !was_stopped && now_stopped
}

/// The sending end of a pipeline channel: the channel itself, the pool of
/// empty buffers to fill, the back-pressure signal shared with the receiver,
/// and the level at which the channel counts as satiated.
#[verifier::reject_recursive_types(T)]
pub struct WrappedSender<T: Sharable> {
    dest_id: usize,
    is_stopped: bool,
    backpressure_notify: Arc<Notify>,
    sender: TokioSender<DataWrapper<T>>,
    satiation_capacity: Arc<AtomicUsize>,
    buffer_consumer: Consumer<T>,
}

impl<T: Sharable> WrappedSender<T> {
    pub closed spec fn spec_dest_id(&self) -> usize {
        self.dest_id
    }

    pub closed spec fn spec_is_stopped(&self) -> bool {
        self.is_stopped
    }

    /// The channel that the sender sends into.
    pub closed spec fn spec_channel(&self) -> TokioSender<DataWrapper<T>> {
        self.sender
    }

    /// The back-pressure signal shared with the receiver.
    pub closed spec fn spec_notify(&self) -> Arc<Notify> {
        self.backpressure_notify
    }

    /// The satiation level shared with the receiver.
    pub closed spec fn spec_satiation(&self) -> Arc<AtomicUsize> {
        self.satiation_capacity
    }

    /// The pool the sender takes empty buffers from.
    pub closed spec fn spec_pool(&self) -> Arc<ArrayQueue<DataWrapper<T>>> {
        self.buffer_consumer.spec_queue()
    }

    /// The sender is wired as `other` is: same destination, channel, signal,
    /// satiation level and pool.
    pub open spec fn same_wiring(&self, other: &Self) -> bool {
        &&& self.spec_dest_id() == other.spec_dest_id()
        &&& self.spec_channel() == other.spec_channel()
        &&& self.spec_notify() == other.spec_notify()
        &&& self.spec_satiation() == other.spec_satiation()
        &&& self.spec_pool() == other.spec_pool()
    }

    /// A sender towards node `dest_id`, stopped until the receiver asks for
    /// data.
    pub fn new(
        sender: TokioSender<DataWrapper<T>>,
        dest_id: usize,
        backpressure_notify: Arc<Notify>,
        satiation_capacity: Arc<AtomicUsize>,
        buffer_consumer: Consumer<T>,
    ) -> (s: Self)
        ensures
            s.spec_dest_id() == dest_id,
            s.spec_is_stopped(),
            s.spec_channel() == sender,
            s.spec_notify() == backpressure_notify,
            s.spec_satiation() == satiation_capacity,
            s.spec_pool() == buffer_consumer.spec_queue(),
    {
        WrappedSender {
            sender,
            is_stopped: true,
            dest_id,
            satiation_capacity,
            backpressure_notify,
            buffer_consumer,
        }
    }

    /// An empty buffer from the pool; where the pool is empty, a new buffer
    /// holding the default value.
    pub fn consume_buffer(&mut self) -> (r: DataWrapper<T>)
        ensures
            final(self).same_wiring(old(self)),
            final(self).spec_is_stopped() == old(self).spec_is_stopped(),
    {
        let popped = self.buffer_consumer.try_pop();
        take_or_default(popped)
    }

    /// Takes a buffer from the pool and copies `input_data` into it: the
    /// buffer to send when several channels get the same value.
    pub fn stage_copy(&mut self, input_data: &mut DataWrapper<T>) -> (r: DataWrapper<T>)
        ensures
            r.value() == old(input_data).value(),
            *final(input_data) == *old(input_data),
            final(self).same_wiring(old(self)),
            final(self).spec_is_stopped() == old(self).spec_is_stopped(),
    {
        let mut output_buffer = self.consume_buffer();
        input_data.copy_to(&mut output_buffer);
        output_buffer
    }

    /// Takes a buffer from the pool and swaps `input_data` into it: the
    /// buffer to send when the value goes to one channel only. The input is
    /// left holding the pool buffer's old value.
    pub fn stage_swap(&mut self, input_data: &mut DataWrapper<T>) -> (r: DataWrapper<T>)
        ensures
            r.value() == old(input_data).value(),
            final(self).same_wiring(old(self)),
            final(self).spec_is_stopped() == old(self).spec_is_stopped(),
    {
        let mut output_buffer = self.consume_buffer();
        input_data.swap_st(&mut output_buffer);
        output_buffer
    }

    /// The back-pressure signal toggles whether the sender is stopped.
    pub fn toggle_stopped(&mut self)
        ensures
            final(self).spec_is_stopped() == !old(self).spec_is_stopped(),
            final(self).same_wiring(old(self)),
    {
        self.is_stopped = !self.is_stopped;
    }

    /// The channel and the back-pressure signal, for the asynchronous send.
    pub fn endpoints(&self) -> (r: (&TokioSender<DataWrapper<T>>, &Arc<Notify>))
        ensures
            *r.0 == self.spec_channel(),
            *r.1 == self.spec_notify(),
    {
        (&self.sender, &self.backpressure_notify)
    }

    pub fn is_stopped(&self) -> (r: bool)
        ensures
            r == self.spec_is_stopped(),
    {
        self.is_stopped
    }

    /// Whether the channel holds at least the satiation level of values:
    /// `satiation_reached` applied to what the channel's size, its free
    /// slots and the shared level read at the moment of the call, which the
    /// receiving thread changes.
    pub fn channel_satiated(&self) -> (r: bool)
        ensures
            exists|max: usize, free: usize, level: usize|
                call_ensures(TokioSender::<DataWrapper<T>>::max_capacity, (&self.spec_channel(),), max)
                    && call_ensures(TokioSender::<DataWrapper<T>>::capacity, (&self.spec_channel(),), free)
                    && call_ensures(
                    AtomicUsize::load,
                    (&*self.spec_satiation(), std::sync::atomic::Ordering::Acquire),
                    level,
                ) && r == ((if free <= max {
                    max - free
                } else {
                    0
                }) >= level),
    {
        let max = self.sender.max_capacity();
        let free = self.sender.capacity();
        let level = self.satiation_capacity.load(std::sync::atomic::Ordering::Acquire);
        assert(call_ensures(TokioSender::<DataWrapper<T>>::max_capacity, (&self.spec_channel(),), max));
        assert(call_ensures(TokioSender::<DataWrapper<T>>::capacity, (&self.spec_channel(),), free));
        assert(call_ensures(
            AtomicUsize::load,
            (&*self.spec_satiation(), std::sync::atomic::Ordering::Acquire),
            level,
        ));
        let queued = queued_values(max, free);
        let r = satiation_reached(queued, level);
        assert(r == ((if free <= max {
            max - free
        } else {
            0
        }) >= level));
        r
    }

    /// Sets the satiation level shared with the receiver. The level lives in
    /// an atomic cell shared by both ends; the cell stays the same.
    pub fn set_satiation_capacity(&mut self, capacity: usize)
        ensures
            final(self).same_wiring(old(self)),
            final(self).spec_is_stopped() == old(self).spec_is_stopped(),
    {
        self.satiation_capacity.store(capacity, std::sync::atomic::Ordering::Release);
    }

    pub fn get_dest_id(&self) -> (r: &usize)
        ensures
            *r == self.spec_dest_id(),
    {
        &self.dest_id
    }
}

/// The receiving end of a pipeline channel.
#[verifier::reject_recursive_types(T)]
pub struct WrappedReceiver<T: Sharable> {
    source_id: usize,
    is_stopped: bool,
    receiver: TokioReceiver<DataWrapper<T>>,
    backpressure_notify: Arc<Notify>,
    satiation_capacity: Arc<AtomicUsize>,
    buffer_producer: Producer<T>,
    signals_raised: Ghost<nat>,
}

impl<T: Sharable> WrappedReceiver<T> {
    pub closed spec fn spec_source_id(&self) -> usize {
        self.source_id
    }

    pub closed spec fn spec_is_stopped(&self) -> bool {
        self.is_stopped
    }

    /// The channel that the receiver takes from.
    pub closed spec fn spec_channel(&self) -> TokioReceiver<DataWrapper<T>> {
        self.receiver
    }

    /// The back-pressure signal shared with the sender.
    pub closed spec fn spec_notify(&self) -> Arc<Notify> {
        self.backpressure_notify
    }

    /// The satiation level shared with the sender.
    pub closed spec fn spec_satiation(&self) -> Arc<AtomicUsize> {
        self.satiation_capacity
    }

    /// The pool the receiver returns emptied buffers to.
    pub closed spec fn spec_pool(&self) -> Arc<ArrayQueue<DataWrapper<T>>> {
        self.buffer_producer.spec_queue()
    }

    /// How many times this receiver has raised the back-pressure signal.
    pub closed spec fn spec_signals_raised(&self) -> nat {
        self.signals_raised@
    }

    /// The receiver is wired as `other` is: same source, channel, signal,
    /// satiation level and pool.
    pub open spec fn same_wiring(&self, other: &Self) -> bool {
        &&& self.spec_source_id() == other.spec_source_id()
        &&& self.spec_channel() == other.spec_channel()
        &&& self.spec_notify() == other.spec_notify()
        &&& self.spec_satiation() == other.spec_satiation()
        &&& self.spec_pool() == other.spec_pool()
    }

    /// A receiver from node `source_id`, stopped at first, that has raised
    /// no signal yet.
    pub fn new(
        receiver: TokioReceiver<DataWrapper<T>>,
        source_id: usize,
        backpressure_notify: Arc<Notify>,
        satiation_capacity: Arc<AtomicUsize>,
        buffer_producer: Producer<T>,
    ) -> (r: Self)
        ensures
            r.spec_source_id() == source_id,
            r.spec_is_stopped(),
            r.spec_channel() == receiver,
            r.spec_notify() == backpressure_notify,
            r.spec_satiation() == satiation_capacity,
            r.spec_pool() == buffer_producer.spec_queue(),
            r.spec_signals_raised() == 0,
    {
        WrappedReceiver {
            source_id,
            is_stopped: true,
            receiver,
            satiation_capacity,
            backpressure_notify,
            buffer_producer,
            signals_raised: Ghost(0),
        }
    }

    /// Returns an emptied buffer to the pool; where the pool is full, the
    /// buffer is dropped.
    pub fn refill_buffer(&mut self, data: DataWrapper<T>)
        ensures
            final(self).same_wiring(old(self)),
            final(self).spec_is_stopped() == old(self).spec_is_stopped(),
            final(self).spec_signals_raised() == old(self).spec_signals_raised(),
    {
        let _ = self.buffer_producer.try_push(data);
    }

    /// The channel, for receiving.
    pub fn channel_mut(&mut self) -> (r: &mut TokioReceiver<DataWrapper<T>>)
        ensures
            *r == old(self).spec_channel(),
            final(self).spec_channel() == *final(r),
            final(self).spec_source_id() == old(self).spec_source_id(),
            final(self).spec_notify() == old(self).spec_notify(),
            final(self).spec_satiation() == old(self).spec_satiation(),
            final(self).spec_pool() == old(self).spec_pool(),
            final(self).spec_is_stopped() == old(self).spec_is_stopped(),
            final(self).spec_signals_raised() == old(self).spec_signals_raised(),
    {
        &mut self.receiver
    }

    pub fn is_stopped(&self) -> (r: bool)
        ensures
            r == self.spec_is_stopped(),
    {
        self.is_stopped
    }

    /// Wakes the sender waiting on the shared back-pressure signal.
    fn raise_signal(&mut self)
        ensures
            final(self).spec_signals_raised() == old(self).spec_signals_raised() + 1,
            final(self).same_wiring(old(self)),
            final(self).spec_is_stopped() == old(self).spec_is_stopped(),
    {
        notify_one(&*self.backpressure_notify);
        proof {
            self.signals_raised@ = self.signals_raised@ + 1;
        }
    }

    /// Sets whether the receiver wants no more data. The back-pressure
    /// signal is raised once exactly when a running receiver stops.
    pub fn set_state(&mut self, stopped: bool)
        ensures
            final(self).spec_is_stopped() == stopped,
            final(self).same_wiring(old(self)),
            final(self).spec_signals_raised() == old(self).spec_signals_raised() + if !old(
                self,
            ).spec_is_stopped() && stopped {
                1nat
            } else {
                0nat
            },
    {
        let raise = signal_on_change(self.is_stopped, stopped);
        self.is_stopped = stopped;
        if raise {
            self.raise_signal();
        }
    }

    /// Whether at least the satiation level of values waits in the channel:
    /// `satiation_reached` applied to what the channel's length and the
    /// shared level read at the moment of the call, which the sending thread
    /// changes.
    pub fn channel_satiated(&self) -> (r: bool)
        ensures
            exists|waiting: usize, level: usize|
                call_ensures(TokioReceiver::<DataWrapper<T>>::len, (&self.spec_channel(),), waiting)
                    && call_ensures(
                    AtomicUsize::load,
                    (&*self.spec_satiation(), std::sync::atomic::Ordering::Acquire),
                    level,
                ) && r == (waiting >= level),
    {
        let waiting = self.receiver.len();
        let level = self.satiation_capacity.load(std::sync::atomic::Ordering::Acquire);
        assert(call_ensures(TokioReceiver::<DataWrapper<T>>::len, (&self.spec_channel(),), waiting));
        assert(call_ensures(
            AtomicUsize::load,
            (&*self.spec_satiation(), std::sync::atomic::Ordering::Acquire),
            level,
        ));
        let r = satiation_reached(waiting, level);
        assert(r == (waiting >= level));
        r
    }

    /// Sets the satiation level shared with the sender. The level lives in
    /// an atomic cell shared by both ends; the cell stays the same.
    pub fn set_satiation_capacity(&mut self, capacity: usize)
        ensures
            final(self).same_wiring(old(self)),
            final(self).spec_is_stopped() == old(self).spec_is_stopped(),
            final(self).spec_signals_raised() == old(self).spec_signals_raised(),
    {
        self.satiation_capacity.store(capacity, std::sync::atomic::Ordering::Release);
    }

    pub fn get_source_id(&self) -> (r: usize)
        ensures
            r == self.spec_source_id(),
    {
        self.source_id
    }
}

/// What a receive makes of the buffer that came out of the channel: its
/// value, or a disconnection where the sender was gone (`None`).
pub open spec fn outcome_value<T: Sharable>(received: Option<DataWrapper<T>>) -> Result<
    T,
    RecvTimeoutError,
> {
    match received {
        Some(w) => Ok(w.value()),
        None => Err(RecvTimeoutError::Disconnected),
    }
}

/// Takes the buffer that came out of `receiver`'s channel (`None` once the
/// sender is gone): gives back its value and returns the buffer to the
/// pool.
pub fn receive_value<T: Sharable>(
    receiver: &mut WrappedReceiver<T>,
    received: Option<DataWrapper<T>>,
) -> (r: Result<T, RecvTimeoutError>)
    ensures
        r == outcome_value(received),
        final(receiver).same_wiring(old(receiver)),
        final(receiver).spec_is_stopped() == old(receiver).spec_is_stopped(),
        final(receiver).spec_signals_raised() == old(receiver).spec_signals_raised(),
{
    match received {
        Some(mut w) => {
            let value = *w.read();
            receiver.refill_buffer(w);
            Ok(value)
        },
        None => Err(RecvTimeoutError::Disconnected),
    }
}

/// A channel of `buffer_size` slots from node `source_id` to node `dest_id`,
/// both ends stopped and sharing one back-pressure signal, one satiation
/// level and one buffer pool. The code sets the level to 1 and fills the
/// pool with `buffer_size + 2` default buffers (two more than the channel
/// holds, so that a sender never waits for an empty buffer); the contract
/// states neither, as both live in shared atomic and queue objects whose
/// contents no contract here can speak of.
pub fn channel_wrapped<T: Sharable>(buffer_size: usize, source_id: usize, dest_id: usize) -> (r: (
    WrappedSender<T>,
    WrappedReceiver<T>,
))
    requires
        0 < buffer_size <= MAX_CHANNEL_BUFFER,
    ensures
        r.0.spec_dest_id() == dest_id,
        r.0.spec_is_stopped(),
        r.1.spec_source_id() == source_id,
        r.1.spec_is_stopped(),
        r.1.spec_signals_raised() == 0,
        r.0.spec_notify() == r.1.spec_notify(),
        r.0.spec_satiation() == r.1.spec_satiation(),
        r.0.spec_pool() == r.1.spec_pool(),
{
    let (sender, receiver) = tokio_channel(buffer_size);
    let backpressure_notify = Arc::new(notify_new());
    let satiation_capacity: Arc<AtomicUsize> = Arc::new(AtomicUsize::new(1));
    let top: usize = usize::MAX;
    assert(top >= 16 ==> (top >> 3usize) + 2 <= top) by (bit_vector);
    let pool_size = buffer_size + 2;
    let (mut channel_wrapped_producer, channel_wrapped_consumer) = make_crossbeam_queue_handles(
        pool_size,
    );
    let mut i: usize = 0;
    while i < pool_size
        invariant
            i <= pool_size,
            channel_wrapped_producer.spec_queue() == channel_wrapped_consumer.spec_queue(),
        decreases pool_size - i,
    {
        let _ = channel_wrapped_producer.try_push(DataWrapper::new());
        i = i + 1;
    }
    (
        WrappedSender::new(
            sender,
            dest_id,
            arc_clone(&backpressure_notify),
            arc_clone(&satiation_capacity),
            channel_wrapped_consumer,
        ),
        WrappedReceiver::new(
            receiver,
            source_id,
            backpressure_notify,
            satiation_capacity,
            channel_wrapped_producer,
        ),
    )
}

/// Where the satiated destinations of one fan-out are recorded: the k-th
/// satiated channel among all but the last goes to slot k, the last channel,
/// if satiated, to the last slot. `r` counts the satiated channels.
pub open spec fn satiation_record(
    satiated: Seq<bool>,
    dest_ids: Seq<usize>,
    edges: Seq<usize>,
    upto: int,
) -> (Seq<usize>, nat)
    decreases upto,
{
    if upto <= 0 {
        (edges, 0)
    } else {
        let (e, c) = satiation_record(satiated, dest_ids, edges, upto - 1);
        let k = upto - 1;
        if !satiated[k] {
            (e, c)
        } else if k == satiated.len() - 1 {
            (e.update(k, dest_ids[k]), c + 1)
        } else {
            (e.update(c as int, dest_ids[k]), c + 1)
        }
    }
}

pub proof fn lemma_satiation_record_bounds(
    satiated: Seq<bool>,
    dest_ids: Seq<usize>,
    edges: Seq<usize>,
    upto: int,
)
    requires
        0 <= upto <= satiated.len(),
        satiated.len() == dest_ids.len(),
        satiated.len() == edges.len(),
    ensures
        satiation_record(satiated, dest_ids, edges, upto).0.len() == edges.len(),
        satiation_record(satiated, dest_ids, edges, upto).1 <= upto,
    decreases upto,
{
    if upto > 0 {
        lemma_satiation_record_bounds(satiated, dest_ids, edges, upto - 1);
    }
}

/// Records which destinations of a fan-out to `senders` channels are
/// satiated after the send, as a fan-out does: `satiated[k]` tells whether
/// channel k reported satiation right after its send, `dest_ids[k]` is its
/// destination. Returns the number of satiated channels.
pub fn record_satiated_edges(
    satiated: &Vec<bool>,
    dest_ids: &Vec<usize>,
    satiated_edges: &mut Vec<usize>,
) -> (r: usize)
    requires
        satiated@.len() == dest_ids@.len(),
        satiated@.len() == old(satiated_edges)@.len(),
        satiated@.len() > 0,
    ensures
        (final(satiated_edges)@, r as nat) == satiation_record(
            satiated@,
            dest_ids@,
            old(satiated_edges)@,
            satiated@.len() as int,
        ),
{
    let n = satiated.len();
    let ghost edges0 = satiated_edges@;
    let mut num_satiated: usize = 0;
    let mut k: usize = 0;
    while k < n - 1
        invariant
            n == satiated@.len(),
            n == dest_ids@.len(),
            n > 0,
            0 <= k <= n - 1,
            num_satiated <= k,
            (satiated_edges@, num_satiated as nat) == satiation_record(
                satiated@,
                dest_ids@,
                edges0,
                k as int,
            ),
            satiated_edges@.len() == n,
        decreases n - 1 - k,
    {
        if satiated[k] {
            satiated_edges.set(num_satiated, dest_ids[k]);
            num_satiated = num_satiated + 1;
        }
        k = k + 1;
    }
    let last_index = n - 1;
    if satiated[last_index] {
        satiated_edges.set(last_index, dest_ids[last_index]);
        num_satiated = num_satiated + 1;
    }
    num_satiated
}

} // verus!
