use crate::comms_core::{receive_value, WrappedReceiver};
use crate::data_management::DataWrapper;
use crate::interfaces::{ODFormat, ReceiveType};
use crate::pipeline_thread::RecvTimeoutError;
use crate::pipeline_traits::Sharable;
use crate::std_channels::{send_rounds, single_rounds, single_send_done, SendError};
use std::sync::mpsc::SyncSender;
use vstd::prelude::*;

verus! {

/// Sends a node's output into one channel.
#[verifier::reject_recursive_types(T)]
pub struct SingleSender<T: Sharable> {
    senders: Vec<SyncSender<T>>,
    sends: Ghost<Seq<Seq<(usize, T, bool)>>>,
}

impl<T: Sharable> SingleSender<T> {
    #[verifier::type_invariant]
    spec fn one_channel(&self) -> bool {
        self.senders@.len() == 1
    }

    /// The channel.
    pub closed spec fn spec_sender(&self) -> SyncSender<T> {
        self.senders@[0]
    }

    /// The sends the latest `send` made, round by round, each with whether
    /// the channel took it; none before the first.
    pub closed spec fn spec_sends(&self) -> Seq<Seq<(usize, T, bool)>> {
        self.sends@
    }

    pub fn new(sender: SyncSender<T>) -> (s: Self)
        ensures
            s.spec_sender() == sender,
            s.spec_sends() == Seq::<Seq<(usize, T, bool)>>::empty(),
    {
        let mut senders: Vec<SyncSender<T>> = Vec::new();
        senders.push(sender);
        SingleSender { senders, sends: Ghost(Seq::empty()) }
    }

    /// Sends an output into the channel (channel 0 of the plan): a standard
    /// value once, a repeated value the given number of times, a series
    /// value by value, stopping at the first failure; the outcome is that of
    /// the last send made. A decomposed output cannot go into one channel:
    /// nothing is sent and its last value comes back as the error.
    pub fn send(&mut self, value: ODFormat<T>) -> (r: Result<(), SendError<T>>)
        requires
            value matches ODFormat::Decompose(v) ==> v@.len() > 0,
        ensures
            final(self).spec_sender() == old(self).spec_sender(),
            single_send_done(value, 0, final(self).spec_sends(), r),
    {
        proof {
            use_type_invariant(&*self);
        }
        let rounds = single_rounds(&value, 0);
        let (outcome, made) = send_rounds(&self.senders, &rounds);
        self.sends = made;
        match value {
            ODFormat::Decompose(mut data_vec) => {
                let last = data_vec.pop().unwrap();
                Err(SendError(last))
            },
            _ => outcome,
        }
    }
}

/// The single input a received buffer makes, or a disconnection where the
/// sender was gone.
pub open spec fn single_input<T: Sharable>(received: Option<DataWrapper<T>>) -> Result<
    ReceiveType<T>,
    RecvTimeoutError,
> {
    match received {
        Some(w) => Ok(ReceiveType::Single(w.value())),
        None => Err(RecvTimeoutError::Disconnected),
    }
}

/// Receives a node's input from one channel.
#[verifier::reject_recursive_types(T)]
pub struct SingleReceiver<T: Sharable> {
    receiver: WrappedReceiver<T>,
    timeout: u64,
    retries: usize,
}

impl<T: Sharable> SingleReceiver<T> {
    pub closed spec fn spec_receiver(&self) -> WrappedReceiver<T> {
        self.receiver
    }

    /// A receiver over `receiver`; the waiting limits are kept with it.
    pub fn new(receiver: WrappedReceiver<T>, timeout: u64, retries: usize) -> (r: SingleReceiver<T>)
        ensures
            r.spec_receiver() == receiver,
    {
        SingleReceiver { receiver, timeout, retries }
    }

    /// The input a buffer received from the channel makes (`None` once the
    /// sender is gone): its value as a single input, the buffer going back to
    /// the pool, or a disconnection.
    pub fn receive(&mut self, received: Option<DataWrapper<T>>) -> (r: Result<
        ReceiveType<T>,
        RecvTimeoutError,
    >)
        ensures
            r == single_input(received),
            final(self).spec_receiver().same_wiring(&old(self).spec_receiver()),
            final(self).spec_receiver().spec_is_stopped() == old(
                self,
            ).spec_receiver().spec_is_stopped(),
    {
        match receive_value(&mut self.receiver, received) {
            Ok(result) => Ok(ReceiveType::Single(result)),
            Err(err) => Err(err),
        }
    }

    /// The channel end, to receive from.
    pub fn receiver_mut(&mut self) -> (r: &mut WrappedReceiver<T>)
        ensures
            *r == old(self).spec_receiver(),
            final(self).spec_receiver() == *final(r),
    {
        &mut self.receiver
    }

    /// Gives up the channel.
    pub fn extract_receiver(self) -> (r: WrappedReceiver<T>)
        ensures
            r == self.spec_receiver(),
    {
        self.receiver
    }
}

} // verus!
