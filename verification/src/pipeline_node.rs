use vstd::prelude::*;

verus! {

/// How often a node ran and how long its last execution took.
#[derive(Debug, Clone)]
pub struct NodeStatus {
    num_executions: usize,
    last_execution_time_ns: u64,
}

impl NodeStatus {
    pub closed spec fn spec_num_executions(&self) -> usize {
        self.num_executions
    }

    pub closed spec fn spec_last_execution_time_ns(&self) -> u64 {
        self.last_execution_time_ns
    }

    /// No executions yet.
    pub fn new() -> (s: NodeStatus)
        ensures
            s.spec_num_executions() == 0,
            s.spec_last_execution_time_ns() == 0,
    {
        NodeStatus { num_executions: 0, last_execution_time_ns: 0 }
    }

    /// Records one more execution, which took `execution_time_ns`.
    pub fn update_analytics(&mut self, execution_time_ns: u64)
        requires
            old(self).spec_num_executions() < usize::MAX,
        ensures
            final(self).spec_num_executions() == old(self).spec_num_executions() + 1,
            final(self).spec_last_execution_time_ns() == execution_time_ns,
    {
        self.num_executions = self.num_executions + 1;
        self.last_execution_time_ns = execution_time_ns;
    }

    pub fn num_executions(&self) -> (r: usize)
        ensures
            r == self.spec_num_executions(),
    {
        self.num_executions
    }

    pub fn last_execution_time_ns(&self) -> (r: u64)
        ensures
            r == self.spec_last_execution_time_ns(),
    {
        self.last_execution_time_ns
    }
}

} // verus!
