use crate::node_traits::{CollectibleNode, RunModel};
use crate::pipeline_graph::{ids_where, NodeImmutableDataView, PipelineGraph};
use vstd::prelude::*;

verus! {

/// What becomes of a node handed to the scheduler: it waits in the graph
/// again, or a task of the given kind is to run it.
pub enum TaskLaunch<N> {
    /// No node with that id waited in the graph.
    Absent,
    /// The node waits in the graph again.
    Placed,
    /// Run the node's computation on a compute thread.
    Compute(N),
    /// Run the node's computation on the asynchronous runtime.
    Io(N),
    /// Run the node's senders on the asynchronous runtime.
    Sender(N),
}

/// Decides, for the work-stealing thread pool, which node runs where and
/// when: a node is taken out of the graph while a task holds it, and goes
/// back when the pool is stopped or the node cannot run.
pub struct TopographicalScheduler<N: CollectibleNode> {
    graph: PipelineGraph<N>,
    running: bool,
}

impl<N: CollectibleNode> TopographicalScheduler<N> {
    pub closed spec fn spec_graph(&self) -> PipelineGraph<N> {
        self.graph
    }

    pub closed spec fn spec_running(&self) -> bool {
        self.running
    }

    /// A stopped scheduler over `graph`.
    pub fn new(graph: PipelineGraph<N>) -> (s: Self)
        ensures
            s.spec_graph() == graph,
            !s.spec_running(),
    {
        TopographicalScheduler { graph, running: false }
    }

    pub fn is_running(&self) -> (r: bool)
        ensures
            r == self.spec_running(),
    {
        self.running
    }

    /// Stops the pool: nodes handed back from now on stay in the graph.
    pub fn stop(&mut self)
        ensures
            !final(self).spec_running(),
            final(self).spec_graph() == old(self).spec_graph(),
    {
        self.running = false;
    }

    /// Starts the pool and gives the ids of the nodes to trigger first: the
    /// sources, then the nodes that start with an initial state.
    pub fn start(&mut self) -> (r: Vec<usize>)
        ensures
            final(self).spec_running(),
            final(self).spec_graph() == old(self).spec_graph(),
            r@ == ids_where(
                old(self).spec_graph().immutable().map_values(
                    |d: NodeImmutableDataView| d.is_source,
                ),
            ) + ids_where(
                old(self).spec_graph().immutable().map_values(
                    |d: NodeImmutableDataView| d.initially_stateful,
                ),
            ),
    {
        self.running = true;
        let mut sources = self.graph.get_all_sources();
        let mut initially_stateful = self.graph.get_all_initially_stateful();
        sources.append(&mut initially_stateful);
        sources
    }

    /// Where a node handed back goes, given whether the pool runs and, for
    /// a computing node, whether it is ready: a stopped pool puts it back; a
    /// running pool launches a compute or asynchronous task exactly when the
    /// node is ready, a sender task for a communicator that is no sink, and
    /// puts every other node back.
    pub open spec fn launch_for(node: N, running: bool, ready: bool) -> TaskLaunch<N> {
        if !running {
            TaskLaunch::Placed
        } else {
            match node.spec_run_model() {
                RunModel::CPU => if ready {
                    TaskLaunch::Compute(node)
                } else {
                    TaskLaunch::Placed
                },
                RunModel::IO => if ready {
                    TaskLaunch::Io(node)
                } else {
                    TaskLaunch::Placed
                },
                RunModel::Communicator => if node.spec_is_sink() {
                    TaskLaunch::Placed
                } else {
                    TaskLaunch::Sender(node)
                },
            }
        }
    }

    /// Hands back a node whose readiness is `ready`: it goes where
    /// `launch_for` says, back into the graph when placed.
    pub fn place_or_launch(&mut self, id: usize, node: N, ready: bool) -> (r: TaskLaunch<N>)
        requires
            !old(self).spec_graph().nodes().contains_key(id),
        ensures
            r == Self::launch_for(node, old(self).spec_running(), ready),
            final(self).spec_running() == old(self).spec_running(),
            final(self).spec_graph().immutable() == old(self).spec_graph().immutable(),
            final(self).spec_graph().analytics() == old(self).spec_graph().analytics(),
            final(self).spec_graph().source_requests() == old(self).spec_graph().source_requests(),
            final(self).spec_graph().sink_requests() == old(self).spec_graph().sink_requests(),
            handed_back(old(self).spec_graph().nodes(), final(self).spec_graph().nodes(), id, node, r),
    {
        let place = if !self.running {
            true
        } else {
            match node.get_run_model() {
                RunModel::CPU => !ready,
                RunModel::IO => !ready,
                RunModel::Communicator => node.is_sink(),
            }
        };
        if place {
            let _ = self.graph.place_node(id, node);
            TaskLaunch::Placed
        } else {
            match node.get_run_model() {
                RunModel::CPU => TaskLaunch::Compute(node),
                RunModel::IO => TaskLaunch::Io(node),
                RunModel::Communicator => TaskLaunch::Sender(node),
            }
        }
    }

    /// Hands a node that a task released back to the scheduler, as
    /// `place_or_launch` does with the node's readiness: for a computing
    /// node of a running pool, whether every input channel reports
    /// satiation, which depends on the state of its channels at the moment
    /// of the call.
    pub fn task_execute_direct(&mut self, id: usize, node: N) -> (r: TaskLaunch<N>)
        requires
            !old(self).spec_graph().nodes().contains_key(id),
        ensures
            final(self).spec_running() == old(self).spec_running(),
            final(self).spec_graph().immutable() == old(self).spec_graph().immutable(),
            final(self).spec_graph().analytics() == old(self).spec_graph().analytics(),
            final(self).spec_graph().source_requests() == old(self).spec_graph().source_requests(),
            final(self).spec_graph().sink_requests() == old(self).spec_graph().sink_requests(),
            exists|ready: bool|
                (old(self).spec_running() && node.spec_run_model() != RunModel::Communicator
                    ==> call_ensures(N::is_ready_exec, (&node,), ready)) && r == Self::launch_for(
                    node,
                    old(self).spec_running(),
                    ready,
                ),
            r is Placed ==> final(self).spec_graph().nodes() == old(
                self,
            ).spec_graph().nodes().insert(id, node),
            !(r is Placed) ==> final(self).spec_graph().nodes() == old(self).spec_graph().nodes(),
            handed_back(old(self).spec_graph().nodes(), final(self).spec_graph().nodes(), id, node, r),
    {
        let computes = match node.get_run_model() {
            RunModel::Communicator => false,
            _ => true,
        };
        let ready = if self.running && computes {
            node.is_ready_exec()
        } else {
            false
        };
        self.place_or_launch(id, node, ready)
    }

    /// Takes node `id` out of the graph and hands it to the scheduler;
    /// `Absent` where no node with that id waits there (a task holds it).
    pub fn task_execute(&mut self, id: usize) -> (r: TaskLaunch<N>)
        ensures
            final(self).spec_running() == old(self).spec_running(),
            final(self).spec_graph().immutable() == old(self).spec_graph().immutable(),
            final(self).spec_graph().analytics() == old(self).spec_graph().analytics(),
            r is Absent <==> !old(self).spec_graph().nodes().contains_key(id),
            r is Absent ==> final(self).spec_graph().nodes() == old(self).spec_graph().nodes(),
            r is Placed ==> final(self).spec_graph().nodes() == old(self).spec_graph().nodes(),
            (r is Compute || r is Io || r is Sender) ==> {
                &&& old(self).spec_running()
                &&& final(self).spec_graph().nodes() == old(self).spec_graph().nodes().remove(id)
            },
            r matches TaskLaunch::Compute(n) ==> n == old(self).spec_graph().nodes()[id]
                && n.spec_run_model() == RunModel::CPU,
            r matches TaskLaunch::Io(n) ==> n == old(self).spec_graph().nodes()[id]
                && n.spec_run_model() == RunModel::IO,
            r matches TaskLaunch::Sender(n) ==> n == old(self).spec_graph().nodes()[id]
                && n.spec_run_model() == RunModel::Communicator && !n.spec_is_sink(),
            old(self).spec_graph().nodes().contains_key(id) ==> exists|ready: bool|
                (old(self).spec_running() && old(self).spec_graph().nodes()[id].spec_run_model()
                    != RunModel::Communicator ==> call_ensures(
                    N::is_ready_exec,
                    (&old(self).spec_graph().nodes()[id],),
                    ready,
                )) && r == Self::launch_for(
                    old(self).spec_graph().nodes()[id],
                    old(self).spec_running(),
                    ready,
                ),
            old(self).spec_graph().nodes().contains_key(id) ==> handed_back(
                old(self).spec_graph().nodes().remove(id),
                final(self).spec_graph().nodes(),
                id,
                old(self).spec_graph().nodes()[id],
                r,
            ),
    {
        match self.graph.get_node(id) {
            None => TaskLaunch::Absent,
            Some((nid, node)) => {
                let r = self.task_execute_direct(nid, node);
                proof {
                    if r is Placed {
                        assert(self.graph.nodes() =~= old(self).spec_graph().nodes());
                    }
                }
                r
            },
        }
    }

    /// A compute or asynchronous task finished running node `id` in
    /// `execution_time_ns`: the execution is recorded and the node handed back
    /// to the scheduler.
    pub fn complete_compute(&mut self, id: usize, node: N, execution_time_ns: u64) -> (r:
        TaskLaunch<N>)
        requires
            !old(self).spec_graph().nodes().contains_key(id),
            id < old(self).spec_graph().analytics().len(),
        ensures
            final(self).spec_running() == old(self).spec_running(),
            final(self).spec_graph().analytics()[id as int].spec_last_execution_time_ns()
                == execution_time_ns,
            final(self).spec_graph().analytics().len() == old(self).spec_graph().analytics().len(),
            r is Placed ==> final(self).spec_graph().nodes() == old(
                self,
            ).spec_graph().nodes().insert(id, node),
            !(r is Placed) ==> final(self).spec_graph().nodes() == old(self).spec_graph().nodes(),
            handed_back(old(self).spec_graph().nodes(), final(self).spec_graph().nodes(), id, node, r),
            !old(self).spec_running() ==> r is Placed,
            exists|ready: bool|
                (old(self).spec_running() && node.spec_run_model() != RunModel::Communicator
                    ==> call_ensures(N::is_ready_exec, (&node,), ready)) && r == Self::launch_for(
                    node,
                    old(self).spec_running(),
                    ready,
                ),
    {
        self.graph.update_analytics(id, execution_time_ns);
        self.task_execute_direct(id, node)
    }

    /// The graph, for reading.
    pub fn graph(&self) -> (r: &PipelineGraph<N>)
        ensures
            *r == self.spec_graph(),
    {
        &self.graph
    }
}

/// What a worker of the static pool submits again after running a task:
/// the successor tasks that the run gave back, in order, followed by the task
/// itself where it is a source (a source is run over and over).
pub fn tasks_to_resubmit<T>(successors: Vec<T>, task: T, is_source: bool) -> (r: Vec<T>)
    ensures
        r@ == if is_source {
            successors@.push(task)
        } else {
            successors@
        },
{
    let mut r = successors;
    if is_source {
        r.push(task);
    }
    r
}

/// The node a launch hands to a task, if any.
pub open spec fn launched_node<N>(r: TaskLaunch<N>) -> Option<N> {
    match r {
        TaskLaunch::Compute(n) => Some(n),
        TaskLaunch::Io(n) => Some(n),
        TaskLaunch::Sender(n) => Some(n),
        _ => None,
    }
}

/// How a node handed back under `id` was dealt with: put into the graph,
/// or given to a task with the graph left as it was.
pub open spec fn handed_back<N>(
    before: Map<usize, N>,
    after: Map<usize, N>,
    id: usize,
    node: N,
    r: TaskLaunch<N>,
) -> bool {
    match r {
        TaskLaunch::Placed => after == before.insert(id, node),
        TaskLaunch::Absent => false,
        _ => launched_node(r) == Some(node) && after == before,
    }
}

/// A node handed back to the scheduler ends up in exactly one place: either
/// it waits in the graph under its id, or a task holds it and the graph has
/// no node under that id. No other node enters or leaves the graph.
pub proof fn lemma_handed_back_node_is_kept_once<N>(
    before: Map<usize, N>,
    after: Map<usize, N>,
    id: usize,
    node: N,
    r: TaskLaunch<N>,
)
    requires
        !before.contains_key(id),
        handed_back(before, after, id, node, r),
    ensures
        after.contains_key(id) <==> launched_node(r) is None,
        after.contains_key(id) ==> after[id] == node,
        !after.contains_key(id) ==> launched_node(r) == Some(node),
        forall|k: usize| k != id ==> (after.contains_key(k) == before.contains_key(k)),
        forall|k: usize| k != id && before.contains_key(k) ==> after[k] == before[k],
{
}

} // verus!
