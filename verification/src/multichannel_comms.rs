use crate::comms_core::{receive_value, WrappedReceiver};
use crate::data_management::DataWrapper;
use crate::interfaces::{ODFormat, ReceiveType};
use crate::pipeline_thread::RecvTimeoutError;
use crate::pipeline_traits::Sharable;
use crate::std_channels::{multi_rounds, multi_send_done, send_rounds, SendError};
use std::sync::mpsc::SyncSender;
use vstd::prelude::*;

verus! {

/// Sends a node's output into several channels.
#[verifier::reject_recursive_types(T)]
pub struct MultichannelSender<T: Sharable> {
    senders: Vec<SyncSender<T>>,
    sends: Ghost<Seq<Seq<(usize, T, bool)>>>,
}

impl<T: Sharable> MultichannelSender<T> {
    /// The channels, in the order in which they were added.
    pub closed spec fn spec_senders(&self) -> Seq<SyncSender<T>> {
        self.senders@
    }

    /// The sends the latest `send_all` made, round by round, each with the
    /// channel's index and whether the channel took it; none before the
    /// first.
    pub closed spec fn spec_sends(&self) -> Seq<Seq<(usize, T, bool)>> {
        self.sends@
    }

    /// A sender with no channel.
    pub fn new() -> (s: MultichannelSender<T>)
        ensures
            s.spec_senders().len() == 0,
            s.spec_sends() == Seq::<Seq<(usize, T, bool)>>::empty(),
    {
        MultichannelSender { senders: Vec::new(), sends: Ghost(Seq::empty()) }
    }

    /// Sends an output into all channels: a standard value into each in
    /// turn; value i of a decomposed output into channel i, as far as both
    /// go; a series value by value, each into every channel in turn; a
    /// repeated value into every channel, the given number of times over. A
    /// failure ends the current round only; the outcome is that of the last
    /// send made, success where none was made.
    pub fn send_all(&mut self, data: ODFormat<T>) -> (r: Result<(), SendError<T>>)
        ensures
            final(self).spec_senders() == old(self).spec_senders(),
            multi_send_done(data, old(self).spec_senders().len(), final(self).spec_sends(), r),
    {
        let rounds = multi_rounds(&data, self.senders.len());
        let (outcome, made) = send_rounds(&self.senders, &rounds);
        self.sends = made;
        outcome
    }

    /// Adds a channel after the others.
    pub fn add_sender(&mut self, sender: SyncSender<T>)
        ensures
            final(self).spec_senders() == old(self).spec_senders().push(sender),
            final(self).spec_sends() == old(self).spec_sends(),
    {
        self.senders.push(sender);
    }
}

/// Whether every receive gave a buffer.
pub open spec fn all_received<T: Sharable>(received: Seq<Option<DataWrapper<T>>>) -> bool {
    forall|i: int| 0 <= i < received.len() ==> (#[trigger] received[i]) is Some
}

/// The values of the received buffers, in order.
pub open spec fn received_values<T: Sharable>(received: Seq<Option<DataWrapper<T>>>) -> Seq<T> {
    received.map_values(|o: Option<DataWrapper<T>>| o->Some_0.value())
}

/// Receives one value from each of several channels.
#[verifier::reject_recursive_types(T)]
pub struct MultichannelReceiver<T: Sharable> {
    receivers: Vec<WrappedReceiver<T>>,
    timeout: u64,
    retries: usize,
}

impl<T: Sharable> MultichannelReceiver<T> {
    /// The channel ends, in the order in which they were added.
    pub closed spec fn spec_receivers(&self) -> Seq<WrappedReceiver<T>> {
        self.receivers@
    }

    pub open spec fn num_receivers(&self) -> nat {
        self.spec_receivers().len()
    }

    /// A receiver with no channel; the waiting limits are kept with it.
    pub fn new(timeout: u64, retries: usize) -> (r: Self)
        ensures
            r.num_receivers() == 0,
    {
        MultichannelReceiver { receivers: Vec::new(), timeout, retries }
    }

    /// The number of channels.
    pub fn receiver_count(&self) -> (r: usize)
        ensures
            r == self.num_receivers(),
    {
        self.receivers.len()
    }

    /// Channel end `k`, to receive from.
    pub fn receiver_mut(&mut self, k: usize) -> (r: &mut WrappedReceiver<T>)
        requires
            k < old(self).num_receivers(),
        ensures
            *r == old(self).spec_receivers()[k as int],
            final(self).spec_receivers() == old(self).spec_receivers().update(k as int, *final(r)),
    {
        &mut self.receivers[k]
    }

    /// The input made of one buffer received from each channel, in channel
    /// order (`None` where the sender was gone): each buffer goes back to its
    /// channel's pool; where every channel gave one, their values as a
    /// multichannel input, else a disconnection.
    pub fn receive(&mut self, received: Vec<Option<DataWrapper<T>>>) -> (r: Result<
        ReceiveType<T>,
        RecvTimeoutError,
    >)
        requires
            received@.len() == old(self).num_receivers(),
        ensures
            final(self).num_receivers() == old(self).num_receivers(),
            all_received(received@) ==> (r matches Ok(ReceiveType::Multichannel(vals)) && vals@
                == received_values(received@)),
            !all_received(received@) ==> r == Err::<ReceiveType<T>, RecvTimeoutError>(
                RecvTimeoutError::Disconnected,
            ),
    {
        let mut output: Vec<T> = Vec::new();
        let mut proceed_flag = true;
        let mut received = received;
        let n = self.receivers.len();
        let ghost all = received@;
        let mut i: usize = 0;
        while i < n
            invariant
                n == self.receivers@.len(),
                n == all.len(),
                received@ == all,
                i <= n,
                proceed_flag == (forall|j: int| 0 <= j < i ==> (#[trigger] all[j]) is Some),
                proceed_flag ==> output@ == received_values(all).take(i as int),
            decreases n - i,
        {
            let item = received[i];
            match receive_value(&mut self.receivers[i], item) {
                Ok(v) => {
                    if proceed_flag {
                        output.push(v);
                    }
                },
                Err(_) => {
                    proceed_flag = false;
                },
            }
            proof {
                assert(received_values(all).take(i + 1) =~= received_values(all).take(
                    i as int,
                ).push(received_values(all)[i as int]));
            }
            i = i + 1;
        }
        if proceed_flag {
            proof {
                assert(received_values(all).take(n as int) =~= received_values(all));
            }
            Ok(ReceiveType::Multichannel(output))
        } else {
            Err(RecvTimeoutError::Disconnected)
        }
    }

    /// Adds a channel after the others.
    pub fn add_receiver(&mut self, receiver: WrappedReceiver<T>)
        ensures
            final(self).spec_receivers() == old(self).spec_receivers().push(receiver),
    {
        self.receivers.push(receiver);
    }
}

/// Receives a fixed number of values from one channel, as sent by a series
/// output.
#[verifier::reject_recursive_types(T)]
pub struct Reassembler<T: Sharable> {
    receiver: WrappedReceiver<T>,
    num_receives: usize,
    timeout: u64,
    retries: usize,
}

impl<T: Sharable> Reassembler<T> {
    pub closed spec fn spec_num_receives(&self) -> usize {
        self.num_receives
    }

    pub closed spec fn spec_receiver(&self) -> WrappedReceiver<T> {
        self.receiver
    }

    pub fn new(receiver: WrappedReceiver<T>, num_receives: usize, timeout: u64, retries: usize) -> (r:
        Reassembler<T>)
        ensures
            r.spec_num_receives() == num_receives,
            r.spec_receiver() == receiver,
    {
        Self { receiver, num_receives, timeout, retries }
    }

    /// The number of values one input takes.
    pub fn receive_count(&self) -> (r: usize)
        ensures
            r == self.spec_num_receives(),
    {
        self.num_receives
    }

    /// The channel end, to receive from.
    pub fn receiver_mut(&mut self) -> (r: &mut WrappedReceiver<T>)
        ensures
            *r == old(self).spec_receiver(),
            final(self).spec_receiver() == *final(r),
            final(self).spec_num_receives() == old(self).spec_num_receives(),
    {
        &mut self.receiver
    }

    /// The input made of the buffers received in turn from the channel
    /// (`None` where the sender was gone): their values, in order, as a
    /// reassembled input, the buffers going back to the pool; the first
    /// `None` ends the input with a disconnection. With nothing to receive,
    /// the input is empty.
    pub fn receive(&mut self, received: Vec<Option<DataWrapper<T>>>) -> (r: Result<
        ReceiveType<T>,
        RecvTimeoutError,
    >)
        requires
            received@.len() == old(self).spec_num_receives(),
        ensures
            final(self).spec_num_receives() == old(self).spec_num_receives(),
            all_received(received@) ==> (r matches Ok(ReceiveType::Reassembled(vals)) && vals@
                == received_values(received@)),
            !all_received(received@) ==> r == Err::<ReceiveType<T>, RecvTimeoutError>(
                RecvTimeoutError::Disconnected,
            ),
    {
        let mut receive_vec: Vec<T> = Vec::new();
        let ghost all = received@;
        let mut i: usize = 0;
        while i < self.num_receives
            invariant
                i <= self.num_receives,
                self.num_receives == old(self).num_receives,
                all.len() == self.num_receives,
                received@ == all,
                forall|j: int| 0 <= j < i ==> (#[trigger] all[j]) is Some,
                receive_vec@ == received_values(all).take(i as int),
            decreases self.num_receives - i,
        {
            let item = received[i];
            match receive_value(&mut self.receiver, item) {
                Ok(v) => receive_vec.push(v),
                Err(error) => {
                    return Err(error);
                },
            }
            proof {
                assert(received_values(all).take(i + 1) =~= received_values(all).take(
                    i as int,
                ).push(received_values(all)[i as int]));
            }
            i = i + 1;
        }
        proof {
            assert(received_values(all).take(i as int) =~= received_values(all));
        }
        Ok(ReceiveType::Reassembled(receive_vec))
    }
}

} // verus!
