use vstd::prelude::*;

verus! {

/// How a node is executed: on a compute thread, on the asynchronous runtime,
/// or as a communicator that only forwards buffered output.
#[derive(PartialEq, Eq, Structural, Debug, Clone, Copy)]
pub enum RunModel {
    CPU,
    IO,
    Communicator,
}

/// What the graph and the scheduler need to know of a node.
pub trait CollectibleNode {
    /// How many channels feed the node.
    spec fn spec_num_inputs(&self) -> usize;

    /// How many channels the node feeds.
    spec fn spec_num_outputs(&self) -> usize;

    /// Whether the node starts with a value ready to send.
    spec fn spec_has_initial_state(&self) -> bool;

    /// How the node must be executed next.
    spec fn spec_run_model(&self) -> RunModel;

    /// Whether the node ends a branch.
    spec fn spec_is_sink(&self) -> bool;

    fn get_num_inputs(&self) -> (r: usize)
        ensures
            r == self.spec_num_inputs(),
    ;

    fn get_num_outputs(&self) -> (r: usize)
        ensures
            r == self.spec_num_outputs(),
    ;

    fn has_initial_state(&self) -> (r: bool)
        ensures
            r == self.spec_has_initial_state(),
    ;

    /// Puts the initial state back into the node's output buffer.
    fn load_initial_state(&mut self);

    /// Whether enough input is waiting for the node to run.
    fn is_ready_exec(&self) -> bool;

    /// The ids of the nodes that this node feeds.
    fn get_successors(&self) -> Vec<usize>;

    /// How the node must be executed next.
    fn get_run_model(&self) -> (r: RunModel)
        ensures
            r == self.spec_run_model(),
    ;

    /// The id recorded in the given slot of the node's satiated-edge record.
    fn check_nth_satiated_edge_id(&self, edge_index: usize) -> Option<usize>;

    /// Whether the node ends a branch.
    fn is_sink(&self) -> (r: bool)
        ensures
            r == self.spec_is_sink(),
    ;
}

} // verus!
