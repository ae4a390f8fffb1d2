use crate::data_management::DataWrapper;
use crate::interfaces::{ODFormat, ReceiveType};
use crate::linear_comms::single_input;
use crate::multichannel_comms::{all_received, received_values};
use crate::linear_comms::SingleReceiver;
use crate::multichannel_comms::{MultichannelReceiver, Reassembler};
use crate::multiplexed_comms::Demultiplexer;
use crate::pipeline_thread::RecvTimeoutError;
use crate::linear_comms::SingleSender;
use crate::multichannel_comms::MultichannelSender;
use crate::multiplexed_comms::{multiplexed_send_result, Multiplexer};
use std::sync::atomic::AtomicUsize;
use crate::pipeline_traits::Sharable;
use crate::std_channels::{multi_send_done, single_send_done, SendError};
use vstd::prelude::*;

verus! {

/// The input side of a node: one channel, one value from each of several
/// channels, a reassembled series, a selected channel, or none (a source).
#[verifier::reject_recursive_types(I)]
pub enum NodeReceiver<I: Sharable> {
    SI(SingleReceiver<I>),
    MI(MultichannelReceiver<I>),
    REA(Reassembler<I>),
    DMI(Demultiplexer<I>),
    Dummy,
}

impl<I: Sharable> NodeReceiver<I> {
    /// Whether `received` holds as many buffers as this receiver takes for
    /// one input: one for a single or selected channel, one per channel for
    /// several channels, the series length for a reassembler, none for a
    /// source.
    pub open spec fn takes(&self, received: Seq<Option<DataWrapper<I>>>) -> bool {
        match *self {
            NodeReceiver::SI(_) => received.len() == 1,
            NodeReceiver::MI(m) => received.len() == m.num_receivers(),
            NodeReceiver::REA(a) => received.len() == a.spec_num_receives(),
            NodeReceiver::DMI(_) => received.len() == 1,
            NodeReceiver::Dummy => true,
        }
    }

    /// The input that the buffers received for it make (`None` where a
    /// sender was gone), as the configured receiver makes it; `selected` is
    /// the channel a demultiplexer reads. A source receives nothing and gets
    /// the dummy input.
    pub fn receive(&mut self, selected: usize, received: Vec<Option<DataWrapper<I>>>) -> (r: Result<
        ReceiveType<I>,
        RecvTimeoutError,
    >)
        requires
            old(self).takes(received@),
        ensures
            *old(self) is Dummy ==> r == Ok::<ReceiveType<I>, RecvTimeoutError>(ReceiveType::Dummy),
            *old(self) is SI ==> r == single_input(received@[0]),
            *old(self) matches NodeReceiver::DMI(d) ==> {
                &&& selected < d.num_receivers() ==> r == single_input(received@[0])
                &&& selected >= d.num_receivers() ==> r == Err::<ReceiveType<I>, RecvTimeoutError>(
                    RecvTimeoutError::Disconnected,
                )
            },
            (*old(self) is MI || *old(self) is REA) ==> {
                &&& all_received(received@) ==> (r matches Ok(v) && (*old(self) is MI ==> (v matches ReceiveType::Multichannel(vals) && vals@ == received_values(received@))) && (*old(self) is REA ==> (v matches ReceiveType::Reassembled(vals) && vals@ == received_values(received@))))
                &&& !all_received(received@) ==> r == Err::<ReceiveType<I>, RecvTimeoutError>(
                    RecvTimeoutError::Disconnected,
                )
            },
    {
        match self {
            NodeReceiver::SI(receiver) => {
                let item = received[0];
                receiver.receive(item)
            },
            NodeReceiver::MI(receiver) => receiver.receive(received),
            NodeReceiver::REA(receiver) => receiver.receive(received),
            NodeReceiver::DMI(receiver) => {
                let item = received[0];
                receiver.receive(selected, item)
            },
            NodeReceiver::Dummy => Ok(ReceiveType::Dummy),
        }
    }
}

/// The output side of a node: one channel, several channels, a selected
/// channel, or none (a sink).
#[verifier::reject_recursive_types(O)]
pub enum NodeSender<O: Sharable> {
    SO(SingleSender<O>),
    MO(MultichannelSender<O>),
    MUO(Multiplexer<O>),
    Dummy,
}

impl<O: Sharable> NodeSender<O> {
    /// Sends an output as the configured sender does: its sends and outcome
    /// are those of the inner sender's `send` (`send_all` for several
    /// channels). A sink sends nothing and succeeds.
    pub fn send(&mut self, data: ODFormat<O>) -> (r: Result<(), SendError<O>>)
        requires
            (*old(self) is SO || *old(self) is MUO) ==> (data matches ODFormat::Decompose(v)
                ==> v@.len() > 0),
        ensures
            *old(self) is Dummy ==> r is Ok && *final(self) == *old(self),
            *old(self) matches NodeSender::SO(s) ==> (*final(self) matches NodeSender::SO(t)
                && t.spec_sender() == s.spec_sender() && single_send_done(
                data,
                0,
                t.spec_sends(),
                r,
            )),
            *old(self) matches NodeSender::MO(s) ==> (*final(self) matches NodeSender::MO(t)
                && t.spec_senders() == s.spec_senders() && multi_send_done(
                data,
                s.spec_senders().len(),
                t.spec_sends(),
                r,
            )),
            *old(self) matches NodeSender::MUO(s) ==> (*final(self) matches NodeSender::MUO(t)
                && t.spec_senders() == s.spec_senders() && t.spec_cell() == s.spec_cell()
                && call_ensures(
                AtomicUsize::load,
                (&*s.spec_cell(), std::sync::atomic::Ordering::Acquire),
                t.spec_selection(),
            ) && multiplexed_send_result(
                data,
                t.spec_selection(),
                s.spec_senders().len(),
                t.spec_sends(),
                r,
            )),
    {
        match self {
            NodeSender::SO(sender) => sender.send(data),
            NodeSender::MO(sender) => sender.send_all(data),
            NodeSender::MUO(sender) => sender.send(data),
            NodeSender::Dummy => Ok(()),
        }
    }
}

} // verus!
