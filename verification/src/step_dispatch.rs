use crate::data_management::DataWrapper;
use crate::interfaces::ReceiveType;
use crate::multichannel_comms::{all_received, received_values};
use crate::linear_comms::SingleReceiver;
use crate::pipeline_traits::Sharable;
use vstd::prelude::*;

verus! {

/// Which handler of a pipeline step takes an input: one per shape of input
/// (a single value, values from several channels, values reassembled from a
/// series, no input at all) and per number of outputs (one or several).
#[derive(PartialEq, Eq, Structural, Debug, Clone, Copy)]
pub enum StepHandler {
    SingleInSingleOut,
    SingleInMultipleOut,
    MultipleInSingleOut,
    MultipleInMultipleOut,
    ReassembledInSingleOut,
    ReassembledInMultipleOut,
    DummyInSingleOut,
    /// A node without input cannot feed several outputs.
    Unsupported,
}

/// The handler for an input of the given shape on a node with
/// `num_outputs` outputs.
pub open spec fn handler_for<T: Sharable>(input: ReceiveType<T>, num_outputs: usize) -> StepHandler {
    let single_out = num_outputs == 1;
    match input {
        ReceiveType::Single(_) => if single_out {
            StepHandler::SingleInSingleOut
        } else {
            StepHandler::SingleInMultipleOut
        },
        ReceiveType::Multichannel(_) => if single_out {
            StepHandler::MultipleInSingleOut
        } else {
            StepHandler::MultipleInMultipleOut
        },
        ReceiveType::Reassembled(_) => if single_out {
            StepHandler::ReassembledInSingleOut
        } else {
            StepHandler::ReassembledInMultipleOut
        },
        ReceiveType::Dummy => if single_out {
            StepHandler::DummyInSingleOut
        } else {
            StepHandler::Unsupported
        },
    }
}

/// Chooses the step handler that runs on `input` for a node with
/// `num_outputs` outputs.
pub fn choose_step_handler<T: Sharable>(input: &ReceiveType<T>, num_outputs: usize) -> (r:
    StepHandler)
    ensures
        r == handler_for(*input, num_outputs),
{
    let single_out = num_outputs == 1;
    match input {
        ReceiveType::Single(_) => if single_out {
            StepHandler::SingleInSingleOut
        } else {
            StepHandler::SingleInMultipleOut
        },
        ReceiveType::Multichannel(_) => if single_out {
            StepHandler::MultipleInSingleOut
        } else {
            StepHandler::MultipleInMultipleOut
        },
        ReceiveType::Reassembled(_) => if single_out {
            StepHandler::ReassembledInSingleOut
        } else {
            StepHandler::ReassembledInMultipleOut
        },
        ReceiveType::Dummy => if single_out {
            StepHandler::DummyInSingleOut
        } else {
            StepHandler::Unsupported
        },
    }
}

/// The input of a node fed by `receivers`, made of the buffer received from
/// each channel in order (`None` where its sender was gone): with one
/// channel, its value as a single input; with any other number, the values
/// of all channels gathered as a multichannel input. The first `None` ends
/// the gathering with an error. Each buffer used goes back to its pool.
pub fn receive_joint_input<T: Sharable>(
    receivers: &mut Vec<SingleReceiver<T>>,
    received: Vec<Option<DataWrapper<T>>>,
) -> (r: Result<ReceiveType<T>, ()>)
    requires
        received@.len() == old(receivers)@.len(),
    ensures
        final(receivers)@.len() == old(receivers)@.len(),
        old(receivers)@.len() == 1 ==> r == match received@[0] {
            Some(w) => Ok::<ReceiveType<T>, ()>(ReceiveType::Single(w.value())),
            None => Err(()),
        },
        old(receivers)@.len() != 1 ==> {
            &&& all_received(received@) ==> (r matches Ok(ReceiveType::Multichannel(vals))
                && vals@ == received_values(received@))
            &&& !all_received(received@) ==> r == Err::<ReceiveType<T>, ()>(())
        },
{
    let n = receivers.len();
    if n == 1 {
        let item = received[0];
        return match receivers[0].receive(item) {
            Ok(v) => Ok(v),
            Err(_) => Err(()),
        };
    }
    let ghost all = received@;
    let mut gathered: Vec<T> = Vec::with_capacity(n);
    let mut i: usize = 0;
    while i < n
        invariant
            n == receivers@.len(),
            n == old(receivers)@.len(),
            n == all.len(),
            received@ == all,
            n != 1,
            i <= n,
            forall|j: int| 0 <= j < i ==> (#[trigger] all[j]) is Some,
            gathered@ == received_values(all).take(i as int),
        decreases n - i,
    {
        let item = received[i];
        match receivers[i].receive(item) {
            Ok(ReceiveType::Single(x)) => gathered.push(x),
            _ => return Err(()),
        }
        proof {
            assert(received_values(all).take(i + 1) =~= received_values(all).take(i as int).push(
                received_values(all)[i as int],
            ));
        }
        i = i + 1;
    }
    proof {
        assert(received_values(all).take(n as int) =~= received_values(all));
    }
    Ok(ReceiveType::Multichannel(gathered))
}

/// Two inputs of the same shape are run by the same handler; the values
/// they carry play no part in the choice.
pub proof fn lemma_handler_depends_on_shape_only<T: Sharable>(
    a: ReceiveType<T>,
    b: ReceiveType<T>,
    num_outputs: usize,
)
    requires
        (a is Single && b is Single) || (a is Multichannel && b is Multichannel) || (
        a is Reassembled && b is Reassembled) || (a is Dummy && b is Dummy),
    ensures
        handler_for(a, num_outputs) == handler_for(b, num_outputs),
{
}

/// Only a node without input and with several outputs has no handler.
pub proof fn lemma_unsupported_only_without_input<T: Sharable>(input: ReceiveType<T>, num_outputs: usize)
    ensures
        handler_for(input, num_outputs) == StepHandler::Unsupported <==> (input is Dummy
            && num_outputs != 1),
{
}

} // verus!
