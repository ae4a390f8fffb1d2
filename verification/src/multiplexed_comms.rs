use crate::comms_core::{receive_value, WrappedReceiver};
use crate::data_management::DataWrapper;
use crate::linear_comms::single_input;
use crate::interfaces::{ODFormat, ReceiveType};
use crate::pipeline_thread::RecvTimeoutError;
use crate::pipeline_traits::Sharable;
use crate::std_channels::{send_rounds, single_rounds, single_send_done, SendError};
use std::sync::atomic::AtomicUsize;
use std::sync::mpsc::SyncSender;
use std::sync::Arc;
use vstd::prelude::*;

verus! {

/// The value that comes back from an output that cannot be sent: a standard
/// or repeated value, or the last value of a series or decomposed output.
pub open spec fn unsendable_value<T: Sharable>(input: ODFormat<T>) -> T {
    match input {
        ODFormat::Standard(v) => v,
        ODFormat::Repeat(v, _) => v,
        ODFormat::Series(v) => v@.last(),
        ODFormat::Decompose(v) => v@.last(),
    }
}

/// Whether `sends` and `r` are what sending `data` into the channel
/// `selected` of `n` channels makes and returns: as a single sender into
/// that channel; where `selected` names no channel, no send and the
/// output's value (the last of a series or decomposed output) as the error.
pub open spec fn multiplexed_send_done<T: Sharable>(
    data: ODFormat<T>,
    selected: usize,
    n: nat,
    sends: Seq<Seq<(usize, T, bool)>>,
    r: Result<(), SendError<T>>,
) -> bool {
    &&& selected < n ==> single_send_done(data, selected, sends, r)
    &&& selected >= n ==> sends.len() == 0 && r == Err::<(), SendError<T>>(
        SendError(unsendable_value(data)),
    )
}

/// What sending `data` by a selection read at the moment of the send makes
/// and returns: as `multiplexed_send_done`, but for an empty series under a
/// selection that names no channel, which has no last value to give back:
/// no send, and an error holding the default value.
pub open spec fn multiplexed_send_result<T: Sharable>(
    data: ODFormat<T>,
    selected: usize,
    n: nat,
    sends: Seq<Seq<(usize, T, bool)>>,
    r: Result<(), SendError<T>>,
) -> bool {
    if selected >= n && (data matches ODFormat::Series(v) && v@.len() == 0) {
        sends.len() == 0 && (r matches Err(e) && call_ensures(T::default, (), e.0))
    } else {
        multiplexed_send_done(data, selected, n, sends, r)
    }
}

/// Sends a node's output into the one channel that an outside control
/// selects.
#[verifier::reject_recursive_types(T)]
pub struct Multiplexer<T: Sharable> {
    senders: Vec<SyncSender<T>>,
    channel: Arc<AtomicUsize>,
    sends: Ghost<Seq<Seq<(usize, T, bool)>>>,
    selection: Ghost<usize>,
}

impl<T: Sharable> Multiplexer<T> {
    pub closed spec fn spec_senders(&self) -> Seq<SyncSender<T>> {
        self.senders@
    }

    /// The sends the latest send made, round by round, each with the
    /// channel's index and whether the channel took it.
    pub closed spec fn spec_sends(&self) -> Seq<Seq<(usize, T, bool)>> {
        self.sends@
    }

    /// The selection the latest send went by.
    pub closed spec fn spec_selection(&self) -> usize {
        self.selection@
    }

    /// The shared cell through which the outside control selects a channel.
    pub closed spec fn spec_cell(&self) -> Arc<AtomicUsize> {
        self.channel
    }

    /// A multiplexer with no channel, selected by `channel`.
    pub fn new(channel: Arc<AtomicUsize>) -> (m: Multiplexer<T>)
        ensures
            m.spec_senders().len() == 0,
            m.spec_sends() == Seq::<Seq<(usize, T, bool)>>::empty(),
            m.spec_cell() == channel,
    {
        Multiplexer {
            senders: Vec::new(),
            channel,
            sends: Ghost(Seq::empty()),
            selection: Ghost(0),
        }
    }

    /// The channel the outside control selects: what reading the shared
    /// cell gives at the moment of the call.
    pub fn selected(&self) -> (r: usize)
        ensures
            call_ensures(
                AtomicUsize::load,
                (&*self.spec_cell(), std::sync::atomic::Ordering::Acquire),
                r,
            ),
    {
        let r = self.channel.load(std::sync::atomic::Ordering::Acquire);
        assert(call_ensures(
            AtomicUsize::load,
            (&*self.spec_cell(), std::sync::atomic::Ordering::Acquire),
            r,
        ));
        r
    }

    /// Sends an output into the channel the outside control selects, read
    /// from the shared cell at the moment of the call, as `send_selected`
    /// does. An empty series for a selection that names no channel has no
    /// last value to give back: nothing is sent and the error holds the
    /// default value.
    pub fn send(&mut self, input: ODFormat<T>) -> (r: Result<(), SendError<T>>)
        requires
            input matches ODFormat::Decompose(v) ==> v@.len() > 0,
        ensures
            final(self).spec_senders() == old(self).spec_senders(),
            final(self).spec_cell() == old(self).spec_cell(),
            call_ensures(
                AtomicUsize::load,
                (&*old(self).spec_cell(), std::sync::atomic::Ordering::Acquire),
                final(self).spec_selection(),
            ),
            multiplexed_send_result(
                input,
                final(self).spec_selection(),
                old(self).spec_senders().len(),
                final(self).spec_sends(),
                r,
            ),
    {
        let selected = self.selected();
        let empty_series = match &input {
            ODFormat::Series(v) => v.len() == 0,
            _ => false,
        };
        if selected >= self.senders.len() && empty_series {
            self.selection = Ghost(selected);
            self.sends = Ghost(Seq::empty());
            Err(SendError(T::default()))
        } else {
            self.send_selected(selected, input)
        }
    }

    /// Sends an output into channel `selected`, as a single sender into that
    /// channel would: a standard value once, a repeated value the given
    /// number of times, a series value by value, stopping at the first
    /// failure; a decomposed output is not sent and its last value comes
    /// back as the error. Where `selected` names no channel (always so
    /// without channels), nothing is sent and the output's value (the last
    /// of a series) comes back as the error.
    pub fn send_selected(&mut self, selected: usize, input: ODFormat<T>) -> (r: Result<
        (),
        SendError<T>,
    >)
        requires
            input matches ODFormat::Decompose(v) ==> v@.len() > 0,
            selected >= old(self).spec_senders().len() ==> (input matches ODFormat::Series(v)
                ==> v@.len() > 0),
        ensures
            final(self).spec_senders() == old(self).spec_senders(),
            final(self).spec_cell() == old(self).spec_cell(),
            final(self).spec_selection() == selected,
            multiplexed_send_done(
                input,
                selected,
                old(self).spec_senders().len(),
                final(self).spec_sends(),
                r,
            ),
    {
        self.selection = Ghost(selected);
        if selected < self.senders.len() {
            let rounds = single_rounds(&input, selected);
            let (outcome, made) = send_rounds(&self.senders, &rounds);
            self.sends = made;
            match input {
                ODFormat::Decompose(mut data_vec) => {
                    let last = data_vec.pop().unwrap();
                    Err(SendError(last))
                },
                _ => outcome,
            }
        } else {
            self.sends = Ghost(Seq::empty());
            let v = self.index_error_unwrap(input);
            Err(SendError(v))
        }
    }

    /// The value an unsendable output gives back: a standard or repeated
    /// value, or the last value of a series or decomposed output.
    fn index_error_unwrap(&self, input: ODFormat<T>) -> (r: T)
        requires
            input matches ODFormat::Series(v) ==> v@.len() > 0,
            input matches ODFormat::Decompose(v) ==> v@.len() > 0,
        ensures
            r == unsendable_value(input),
    {
        match input {
            ODFormat::Standard(result) => result,
            ODFormat::Repeat(result, _) => result,
            ODFormat::Series(mut result) => result.pop().unwrap(),
            ODFormat::Decompose(mut result) => result.pop().unwrap(),
        }
    }

    /// Adds a channel after the others.
    pub fn add_sender(&mut self, sender: SyncSender<T>)
        ensures
            final(self).spec_senders() == old(self).spec_senders().push(sender),
            final(self).spec_cell() == old(self).spec_cell(),
    {
        self.senders.push(sender);
    }
}

/// Receives from the one channel that an outside control selects.
#[verifier::reject_recursive_types(T)]
pub struct Demultiplexer<T: Sharable> {
    receivers: Vec<WrappedReceiver<T>>,
    channel: Arc<AtomicUsize>,
    timeout: u64,
    retries: usize,
}

impl<T: Sharable> Demultiplexer<T> {
    /// The channel ends, in the order in which they were added.
    pub closed spec fn spec_receivers(&self) -> Seq<WrappedReceiver<T>> {
        self.receivers@
    }

    pub open spec fn num_receivers(&self) -> nat {
        self.spec_receivers().len()
    }

    /// The shared cell through which the outside control selects a channel.
    pub closed spec fn spec_cell(&self) -> Arc<AtomicUsize> {
        self.channel
    }

    /// A demultiplexer with no channel, selected by `channel`.
    pub fn new(channel: Arc<AtomicUsize>, timeout: u64, retries: usize) -> (d: Demultiplexer<T>)
        ensures
            d.num_receivers() == 0,
            d.spec_cell() == channel,
    {
        Demultiplexer { receivers: Vec::new(), channel, timeout, retries }
    }

    /// The channel the outside control selects: what reading the shared
    /// cell gives at the moment of the call.
    pub fn selected(&self) -> (r: usize)
        ensures
            call_ensures(
                AtomicUsize::load,
                (&*self.spec_cell(), std::sync::atomic::Ordering::Acquire),
                r,
            ),
    {
        let r = self.channel.load(std::sync::atomic::Ordering::Acquire);
        assert(call_ensures(
            AtomicUsize::load,
            (&*self.spec_cell(), std::sync::atomic::Ordering::Acquire),
            r,
        ));
        r
    }

    /// The number of channels.
    pub fn receiver_count(&self) -> (r: usize)
        ensures
            r == self.num_receivers(),
    {
        self.receivers.len()
    }

    /// Channel end `k`, to receive from.
    pub fn receiver_mut(&mut self, k: usize) -> (r: &mut WrappedReceiver<T>)
        requires
            k < old(self).num_receivers(),
        ensures
            *r == old(self).spec_receivers()[k as int],
            final(self).spec_receivers() == old(self).spec_receivers().update(k as int, *final(r)),
            final(self).spec_cell() == old(self).spec_cell(),
    {
        &mut self.receivers[k]
    }

    /// The input of channel `selected`, made of the buffer received from it
    /// (`None` where the sender was gone): its value as a single input, the
    /// buffer going back to the pool. Where `selected` names no channel, a
    /// disconnection.
    pub fn receive(&mut self, selected: usize, received: Option<DataWrapper<T>>) -> (r: Result<
        ReceiveType<T>,
        RecvTimeoutError,
    >)
        ensures
            final(self).num_receivers() == old(self).num_receivers(),
            final(self).spec_cell() == old(self).spec_cell(),
            selected < old(self).num_receivers() ==> r == single_input(received),
            selected >= old(self).num_receivers() ==> r == Err::<ReceiveType<T>, RecvTimeoutError>(
                RecvTimeoutError::Disconnected,
            ),
    {
        if selected < self.receivers.len() {
            match receive_value(&mut self.receivers[selected], received) {
                Ok(v) => Ok(ReceiveType::Single(v)),
                Err(err) => Err(err),
            }
        } else {
            Err(RecvTimeoutError::Disconnected)
        }
    }

    /// Adds a channel after the others.
    pub fn add_receiver(&mut self, receiver: WrappedReceiver<T>)
        ensures
            final(self).spec_receivers() == old(self).spec_receivers().push(receiver),
            final(self).spec_cell() == old(self).spec_cell(),
    {
        self.receivers.push(receiver);
    }
}

} // verus!
