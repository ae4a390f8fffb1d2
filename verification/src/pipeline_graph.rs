use crate::node_builder::PipelineBuildVector;
use crate::node_traits::CollectibleNode;
use std::collections::HashMap;
use std::hash::BuildHasher;
use vstd::prelude::*;

verus! {

broadcast use vstd::std_specs::hash::group_hash_axioms;

/// The concurrent map of `scc` that holds the requested state of each source
/// or sink node.
#[verifier::external_type_specification]
#[verifier::external_body]
#[verifier::reject_recursive_types(K)]
#[verifier::reject_recursive_types(V)]
#[verifier::reject_recursive_types(H)]
pub struct ExSccHashMap<K, V, H: BuildHasher>(scc::HashMap<K, V, H>);

/// A map from node id to requested state code.
pub type RequestMap = scc::HashMap<usize, u8>;

/// What a request map holds: node id to requested state code.
pub uninterp spec fn request_map_contents(m: RequestMap) -> Map<usize, u8>;

/// The request map that holds nothing.
pub open spec fn no_requests() -> Map<usize, u8> {
    Map::empty()
}

/// `scc::HashMap::new`: an empty map.
#[verifier::external_body]
fn request_map_new() -> (m: RequestMap)
    ensures
        request_map_contents(m) == no_requests(),
{
    scc::HashMap::new()
}

/// `scc::HashMap::insert_sync`: inserts the pair and succeeds where the key is
/// absent; where it is present, the map is left as it was and the call fails.
#[verifier::external_body]
fn request_map_insert(m: &mut RequestMap, key: usize, val: u8) -> (r: bool)
    ensures
        r == !request_map_contents(*old(m)).contains_key(key),
        request_map_contents(*final(m)) == if r {
            request_map_contents(*old(m)).insert(key, val)
        } else {
            request_map_contents(*old(m))
        },
{
    m.insert_sync(key, val).is_ok()
}

/// Stores a requested state code in a map slot and hands it back.
fn set_request(slot: &mut u8, code: u8) -> (r: u8)
    ensures
        *final(slot) == code,
        r == code,
{
    *slot = code;
    code
}

/// `scc::HashMap::update_sync`: where the key is present, its value becomes
/// `val` and the call succeeds; where it is absent, nothing changes.
#[verifier::external_body]
fn request_map_update(m: &mut RequestMap, key: usize, val: u8) -> (r: bool)
    ensures
        r == request_map_contents(*old(m)).contains_key(key),
        request_map_contents(*final(m)) == if r {
            request_map_contents(*old(m)).insert(key, val)
        } else {
            request_map_contents(*old(m))
        },
{
    m.update_sync(&key, |_, v| set_request(v, val)).is_some()
}

/// The state a node of the graph is requested to be in.
#[derive(PartialEq, Eq, Structural, Debug, Clone, Copy)]
pub enum PipelineNodeState {
    Run,
    Stop,
    Dependent,
}

/// The code of each state.
pub open spec fn node_state_code(s: PipelineNodeState) -> u8 {
    match s {
        PipelineNodeState::Run => 0,
        PipelineNodeState::Stop => 1,
        PipelineNodeState::Dependent => 2,
    }
}

/// The state of each code below 3.
pub open spec fn node_state_of_code(c: u8) -> PipelineNodeState {
    if c == 0 {
        PipelineNodeState::Run
    } else if c == 1 {
        PipelineNodeState::Stop
    } else {
        PipelineNodeState::Dependent
    }
}

impl PipelineNodeState {
    /// The code of the state: 0 run, 1 stop, 2 dependent.
    pub fn into_u8(self) -> (r: u8)
        ensures
            r == node_state_code(self),
    {
        match self {
            PipelineNodeState::Run => 0,
            PipelineNodeState::Stop => 1,
            PipelineNodeState::Dependent => 2,
        }
    }

    /// The state of a code; only 0, 1 and 2 are codes.
    pub fn from_u8(u8: u8) -> (r: PipelineNodeState)
        requires
            u8 <= 2,
        ensures
            r == node_state_of_code(u8),
    {
        if u8 == 0 {
            PipelineNodeState::Run
        } else if u8 == 1 {
            PipelineNodeState::Stop
        } else {
            PipelineNodeState::Dependent
        }
    }
}

/// Decoding a state's code gives the state back, and every code below 3
/// is the code of its decoded state.
pub proof fn lemma_node_state_code_round_trip(s: PipelineNodeState, c: u8)
    ensures
        node_state_of_code(node_state_code(s)) == s,
        node_state_code(s) <= 2,
        c <= 2 ==> node_state_code(node_state_of_code(c)) == c,
{
}

/// What the master thread reads of a node: how often it ran, how long its
/// last execution took, and its state.
#[derive(Debug)]
pub struct NodeMasterReadData {
    num_executions: usize,
    last_execution_time_ns: u64,
    current_state: u8,
}

impl NodeMasterReadData {
    #[verifier::type_invariant]
    spec fn inv(self) -> bool {
        self.current_state <= 2
    }
    pub closed spec fn spec_num_executions(&self) -> usize {
        self.num_executions
    }

    pub closed spec fn spec_last_execution_time_ns(&self) -> u64 {
        self.last_execution_time_ns
    }

    pub closed spec fn spec_current_state(&self) -> u8 {
        self.current_state
    }

    /// No executions yet, in the stop state.
    pub fn new() -> (d: NodeMasterReadData)
        ensures
            d.spec_num_executions() == 0,
            d.spec_last_execution_time_ns() == 0,
            d.spec_current_state() == node_state_code(PipelineNodeState::Stop),
    {
        NodeMasterReadData {
            num_executions: 0,
            last_execution_time_ns: 0,
            current_state: PipelineNodeState::Stop.into_u8(),
        }
    }

    /// Records one more execution, which took `execution_time_ns`. The
    /// count wraps around at the end of its range.
    pub fn update_analytics(&mut self, execution_time_ns: u64)
        ensures
            final(self).spec_num_executions() == (if old(self).spec_num_executions() == usize::MAX {
                0
            } else {
                old(self).spec_num_executions() + 1
            }),
            final(self).spec_last_execution_time_ns() == execution_time_ns,
            final(self).spec_current_state() == old(self).spec_current_state(),
    {
        proof {
            use_type_invariant(&*self);
        }
        self.num_executions = self.num_executions.wrapping_add(1);
        self.last_execution_time_ns = execution_time_ns;
    }

    /// The execution count.
    pub fn num_executions(&self) -> (r: usize)
        ensures
            r == self.spec_num_executions(),
    {
        self.num_executions
    }

    /// The duration of the last execution.
    pub fn last_execution_time_ns(&self) -> (r: u64)
        ensures
            r == self.spec_last_execution_time_ns(),
    {
        self.last_execution_time_ns
    }

    /// The state code, always below 3.
    pub fn current_state(&self) -> (r: u8)
        ensures
            r == self.spec_current_state(),
            r <= 2,
    {
        proof {
            use_type_invariant(self);
        }
        self.current_state
    }
}

impl Clone for NodeMasterReadData {
    fn clone(&self) -> (r: Self)
        ensures
            r == *self,
    {
        proof {
            use_type_invariant(self);
        }
        NodeMasterReadData {
            num_executions: self.num_executions,
            last_execution_time_ns: self.last_execution_time_ns,
            current_state: self.current_state,
        }
    }
}

/// What never changes of a node once the graph is built.
#[derive(Debug, Clone)]
pub struct NodeImmutableData {
    name: String,
    is_source: bool,
    is_sink: bool,
    initially_stateful: bool,
}

/// The immutable data as plain values.
pub struct NodeImmutableDataView {
    pub name: Seq<char>,
    pub is_source: bool,
    pub is_sink: bool,
    pub initially_stateful: bool,
}

impl View for NodeImmutableData {
    type V = NodeImmutableDataView;

    closed spec fn view(&self) -> NodeImmutableDataView {
        NodeImmutableDataView {
            name: self.name@,
            is_source: self.is_source,
            is_sink: self.is_sink,
            initially_stateful: self.initially_stateful,
        }
    }
}

impl NodeImmutableData {
    pub fn new(name: String, is_source: bool, is_sink: bool, initially_stateful: bool) -> (d: Self)
        ensures
            d@ == (NodeImmutableDataView { name: name@, is_source, is_sink, initially_stateful }),
    {
        Self { name, is_source, is_sink, initially_stateful }
    }

    pub fn name(&self) -> (r: &String)
        ensures
            r@ == self@.name,
    {
        &self.name
    }

    pub fn is_source(&self) -> (r: bool)
        ensures
            r == self@.is_source,
    {
        self.is_source
    }

    pub fn is_sink(&self) -> (r: bool)
        ensures
            r == self@.is_sink,
    {
        self.is_sink
    }

    pub fn initially_stateful(&self) -> (r: bool)
        ensures
            r == self@.initially_stateful,
    {
        self.initially_stateful
    }
}

/// The immutable data of an entry of the build vector: a source has no
/// inputs, a sink no outputs.
pub open spec fn entry_data<N: CollectibleNode>(e: (usize, String, N)) -> NodeImmutableDataView {
    NodeImmutableDataView {
        name: e.1@,
        is_source: e.2.spec_num_inputs() == 0,
        is_sink: e.2.spec_num_outputs() == 0,
        initially_stateful: e.2.spec_has_initial_state(),
    }
}

/// The data of a slot that no entry claims.
pub open spec fn empty_data() -> NodeImmutableDataView {
    NodeImmutableDataView {
        name: Seq::empty(),
        is_source: false,
        is_sink: false,
        initially_stateful: false,
    }
}

/// The immutable data of `n` slots after the entries of `s` claimed theirs,
/// earlier entries overriding later ones.
pub open spec fn immutable_of<N: CollectibleNode>(
    s: Seq<(usize, String, N)>,
    n: nat,
) -> Seq<NodeImmutableDataView>
    decreases s.len(),
{
    if s.len() == 0 {
        Seq::new(n, |i: int| empty_data())
    } else {
        let rest = immutable_of(s.drop_first(), n);
        if s[0].0 < n {
            rest.update(s[0].0 as int, entry_data(s[0]))
        } else {
            rest
        }
    }
}

/// The request map of the entries of `s` whose node passes `sel` (0 for the
/// number of inputs, 1 for the number of outputs), each in the stop state.
pub open spec fn requests_of<N: CollectibleNode>(s: Seq<(usize, String, N)>, sel: int) -> Map<
    usize,
    u8,
>
    decreases s.len(),
{
    if s.len() == 0 {
        Map::empty()
    } else {
        let rest = requests_of(s.drop_first(), sel);
        let selected = if sel == 0 {
            s[0].2.spec_num_inputs() == 0
        } else {
            s[0].2.spec_num_outputs() == 0
        };
        if selected {
            rest.insert(s[0].0, node_state_code(PipelineNodeState::Stop))
        } else {
            rest
        }
    }
}

/// The nodes of the entries of `s`, by id.
pub open spec fn nodes_of<N>(s: Seq<(usize, String, N)>) -> Map<usize, N>
    decreases s.len(),
{
    if s.len() == 0 {
        Map::empty()
    } else {
        nodes_of(s.drop_first()).insert(s[0].0, s[0].2)
    }
}

/// Whether the ids of the entries are distinct and each below the number of
/// entries.
pub open spec fn ids_valid<N>(s: Seq<(usize, String, N)>) -> bool {
    &&& forall|k: int| 0 <= k < s.len() ==> (#[trigger] s[k]).0 < s.len()
    &&& forall|k: int, l: int|
        0 <= k < l < s.len() ==> (#[trigger] s[k]).0 != (#[trigger] s[l]).0
}

/// The positions at which `flags` holds, in increasing order.
pub open spec fn ids_where(flags: Seq<bool>) -> Seq<usize>
    decreases flags.len(),
{
    if flags.len() == 0 {
        Seq::empty()
    } else {
        let rest = ids_where(flags.drop_last());
        if flags.last() {
            rest.push((flags.len() - 1) as usize)
        } else {
            rest
        }
    }
}

proof fn lemma_requests_dom<N: CollectibleNode>(s: Seq<(usize, String, N)>, sel: int, id: usize)
    requires
        forall|k: int| 0 <= k < s.len() ==> (#[trigger] s[k]).0 != id,
    ensures
        !requests_of(s, sel).contains_key(id),
    decreases s.len(),
{
    if s.len() > 0 {
        assert forall|k: int| 0 <= k < s.drop_first().len() implies (#[trigger] s.drop_first()[k]).0 != id by {
            assert(s.drop_first()[k] == s[k + 1]);
        }
        lemma_requests_dom(s.drop_first(), sel, id);
    }
}

proof fn lemma_nodes_dom<N>(s: Seq<(usize, String, N)>, id: usize)
    requires
        forall|k: int| 0 <= k < s.len() ==> (#[trigger] s[k]).0 != id,
    ensures
        !nodes_of(s).contains_key(id),
    decreases s.len(),
{
    if s.len() > 0 {
        assert forall|k: int| 0 <= k < s.drop_first().len() implies (#[trigger] s.drop_first()[k]).0 != id by {
            assert(s.drop_first()[k] == s[k + 1]);
        }
        lemma_nodes_dom(s.drop_first(), id);
    }
}

proof fn lemma_immutable_len<N: CollectibleNode>(s: Seq<(usize, String, N)>, n: nat)
    ensures
        immutable_of(s, n).len() == n,
    decreases s.len(),
{
    if s.len() > 0 {
        lemma_immutable_len(s.drop_first(), n);
    }
}

/// With distinct ids, each entry's node is found under its id.
pub proof fn lemma_nodes_of_entry<N>(s: Seq<(usize, String, N)>, k: int)
    requires
        ids_valid(s),
        0 <= k < s.len(),
    ensures
        nodes_of(s).contains_key(s[k].0),
        nodes_of(s)[s[k].0] == s[k].2,
    decreases s.len(),
{
    if k > 0 {
        let t = s.drop_first();
        assert(t[k - 1] == s[k]);
        assert forall|a: int, b: int| 0 <= a < b < t.len() implies (#[trigger] t[a]).0 != (#[trigger] t[b]).0 by {
            assert(t[a] == s[a + 1] && t[b] == s[b + 1]);
        }
        assert forall|a: int| 0 <= a < t.len() implies (#[trigger] t[a]).0 < t.len() + 1 by {
            assert(t[a] == s[a + 1]);
        }
        lemma_nodes_of_entry_aux(t, k - 1, s.len());
        assert(s[0].0 != s[k].0);
    }
}

proof fn lemma_nodes_of_entry_aux<N>(s: Seq<(usize, String, N)>, k: int, bound: nat)
    requires
        forall|a: int, b: int| 0 <= a < b < s.len() ==> (#[trigger] s[a]).0 != (#[trigger] s[b]).0,
        0 <= k < s.len(),
    ensures
        nodes_of(s).contains_key(s[k].0),
        nodes_of(s)[s[k].0] == s[k].2,
    decreases s.len(),
{
    if k > 0 {
        let t = s.drop_first();
        assert(t[k - 1] == s[k]);
        assert forall|a: int, b: int| 0 <= a < b < t.len() implies (#[trigger] t[a]).0 != (#[trigger] t[b]).0 by {
            assert(t[a] == s[a + 1] && t[b] == s[b + 1]);
        }
        lemma_nodes_of_entry_aux(t, k - 1, bound);
        assert(s[0].0 != s[k].0);
    }
}

/// Collects the positions at which `flags` holds.
fn collect_ids(flags: &Vec<bool>) -> (r: Vec<usize>)
    ensures
        r@ == ids_where(flags@),
{
    let mut r: Vec<usize> = Vec::new();
    let mut i: usize = 0;
    while i < flags.len()
        invariant
            0 <= i <= flags.len(),
            r@ == ids_where(flags@.take(i as int)),
        decreases flags.len() - i,
    {
        assert(flags@.take(i + 1).drop_last() =~= flags@.take(i as int));
        if flags[i] {
            r.push(i);
        }
        i = i + 1;
    }
    assert(flags@.take(flags.len() as int) =~= flags@);
    r
}

/// The nodes of a pipeline with what the master thread reads of them, the
/// requested states of its sources and sinks, and each node's computation
/// while no thread holds it.
pub struct PipelineGraph<N: CollectibleNode> {
    state_request_map_source: RequestMap,
    state_request_map_sink: RequestMap,
    master_read_array: Vec<NodeMasterReadData>,
    node_immutable_data: Vec<NodeImmutableData>,
    mutable_state_map: HashMap<usize, N>,
}

impl<N: CollectibleNode> PipelineGraph<N> {
    /// The number of nodes.
    pub closed spec fn num_nodes(&self) -> nat {
        self.node_immutable_data@.len()
    }

    /// The immutable data of each node, by id.
    pub closed spec fn immutable(&self) -> Seq<NodeImmutableDataView> {
        self.node_immutable_data@.map_values(|d: NodeImmutableData| d@)
    }

    /// What the master reads of each node, by id.
    pub closed spec fn analytics(&self) -> Seq<NodeMasterReadData> {
        self.master_read_array@
    }

    /// The requested states of the sources.
    pub closed spec fn source_requests(&self) -> Map<usize, u8> {
        request_map_contents(self.state_request_map_source)
    }

    /// The requested states of the sinks.
    pub closed spec fn sink_requests(&self) -> Map<usize, u8> {
        request_map_contents(self.state_request_map_sink)
    }

    /// The nodes that no thread holds, by id.
    pub closed spec fn nodes(&self) -> Map<usize, N> {
        self.mutable_state_map@
    }

    /// Builds the graph from the nodes of a build vector: each node's
    /// immutable data sits at its id, every node starts with no executions
    /// in the stop state, every source and every sink is requested to stop,
    /// and every node waits in the graph under its id.
    pub fn new(build_vector: PipelineBuildVector<N>) -> (g: Self)
        requires
            ids_valid(build_vector.entries()),
        ensures
            g.num_nodes() == build_vector.entries().len(),
            g.analytics().len() == build_vector.entries().len(),
            g.immutable() == immutable_of(build_vector.entries(), build_vector.entries().len()),
            forall|i: int|
                0 <= i < g.num_nodes() ==> {
                    &&& (#[trigger] g.analytics()[i]).spec_num_executions() == 0
                    &&& g.analytics()[i].spec_last_execution_time_ns() == 0
                    &&& g.analytics()[i].spec_current_state() == node_state_code(
                        PipelineNodeState::Stop,
                    )
                },
            g.source_requests() == requests_of(build_vector.entries(), 0),
            g.sink_requests() == requests_of(build_vector.entries(), 1),
            g.nodes() == nodes_of(build_vector.entries()),
    {
        let ghost entries = build_vector.entries();
        let mut nodes = build_vector.consume();
        let n = nodes.len();
        let mut master_read_vec: Vec<NodeMasterReadData> = Vec::new();
        let mut node_immutable_data: Vec<NodeImmutableData> = Vec::new();
        let mut i: usize = 0;
        while i < n
            invariant
                0 <= i <= n,
                master_read_vec@.len() == i,
                node_immutable_data@.len() == i,
                forall|j: int|
                    0 <= j < i ==> {
                        &&& (#[trigger] master_read_vec@[j]).spec_num_executions() == 0
                        &&& master_read_vec@[j].spec_last_execution_time_ns() == 0
                        &&& master_read_vec@[j].spec_current_state() == node_state_code(
                            PipelineNodeState::Stop,
                        )
                    },
                forall|j: int| 0 <= j < i ==> (#[trigger] node_immutable_data@[j])@ == empty_data(),
            decreases n - i,
        {
            master_read_vec.push(NodeMasterReadData::new());
            node_immutable_data.push(NodeImmutableData::new(String::new(), false, false, false));
            i = i + 1;
        }
        proof {
            assert(node_immutable_data@.map_values(|d: NodeImmutableData| d@) =~= immutable_of(
                entries.subrange(n as int, n as int),
                n as nat,
            ));
        }
        let mut state_request_map_source = request_map_new();
        let mut state_request_map_sink = request_map_new();
        let mut mutable_state_map: HashMap<usize, N> = HashMap::new();
        let mut m: usize = n;
        while m > 0
            invariant
                0 <= m <= n,
                n == entries.len(),
                ids_valid(entries),
                nodes@ == entries.subrange(0, m as int),
                master_read_vec@.len() == n,
                node_immutable_data@.len() == n,
                forall|j: int|
                    0 <= j < n ==> {
                        &&& (#[trigger] master_read_vec@[j]).spec_num_executions() == 0
                        &&& master_read_vec@[j].spec_last_execution_time_ns() == 0
                        &&& master_read_vec@[j].spec_current_state() == node_state_code(
                            PipelineNodeState::Stop,
                        )
                    },
                node_immutable_data@.map_values(|d: NodeImmutableData| d@) == immutable_of(
                    entries.subrange(m as int, n as int),
                    n as nat,
                ),
                request_map_contents(state_request_map_source) == requests_of(
                    entries.subrange(m as int, n as int),
                    0,
                ),
                request_map_contents(state_request_map_sink) == requests_of(
                    entries.subrange(m as int, n as int),
                    1,
                ),
                mutable_state_map@ == nodes_of(entries.subrange(m as int, n as int)),
            decreases m,
        {
            let ghost suffix = entries.subrange(m as int, n as int);
            let ghost longer = entries.subrange(m - 1, n as int);
            assert(longer.drop_first() =~= suffix);
            assert(longer[0] == entries[m - 1]);
            proof {
                assert forall|k: int| 0 <= k < suffix.len() implies (#[trigger] suffix[k]).0 != entries[m
                    - 1].0 by {
                    assert(suffix[k] == entries[m + k]);
                }
                lemma_requests_dom(suffix, 0, entries[m - 1].0);
                lemma_requests_dom(suffix, 1, entries[m - 1].0);
                lemma_nodes_dom(suffix, entries[m - 1].0);
                lemma_immutable_len(suffix, n as nat);
            }
            let (id, name, node) = nodes.pop().unwrap();
            let num_inputs = node.get_num_inputs();
            let num_outputs = node.get_num_outputs();
            let initial = node.has_initial_state();
            let data = NodeImmutableData::new(name, num_inputs == 0, num_outputs == 0, initial);
            let ghost before = node_immutable_data@;
            node_immutable_data.set(id, data);
            proof {
                assert(node_immutable_data@.map_values(|d: NodeImmutableData| d@) =~= before.map_values(
                    |d: NodeImmutableData| d@,
                ).update(id as int, entry_data(entries[m - 1])));
            }
            if num_inputs == 0 {
                let _ = request_map_insert(
                    &mut state_request_map_source,
                    id,
                    PipelineNodeState::Stop.into_u8(),
                );
            }
            if num_outputs == 0 {
                let _ = request_map_insert(
                    &mut state_request_map_sink,
                    id,
                    PipelineNodeState::Stop.into_u8(),
                );
            }
            mutable_state_map.insert(id, node);
            m = m - 1;
            assert(nodes@ =~= entries.subrange(0, m as int));
        }
        assert(entries.subrange(0, n as int) =~= entries);
        Self {
            state_request_map_source,
            state_request_map_sink,
            master_read_array: master_read_vec,
            node_immutable_data,
            mutable_state_map,
        }
    }

    /// The ids of the nodes flagged by `pick` in the immutable data, in
    /// increasing order.
    fn collect_flagged(&self, pick: u8) -> (r: Vec<usize>)
        ensures
            r@ == ids_where(
                self.immutable().map_values(
                    |d: NodeImmutableDataView|
                        if pick == 0 {
                            d.is_source
                        } else if pick == 1 {
                            d.is_sink
                        } else {
                            d.initially_stateful
                        },
                ),
            ),
    {
        let mut flags: Vec<bool> = Vec::new();
        let mut i: usize = 0;
        while i < self.node_immutable_data.len()
            invariant
                0 <= i <= self.node_immutable_data@.len(),
                flags@ =~= self.immutable().map_values(
                    |d: NodeImmutableDataView|
                        if pick == 0 {
                            d.is_source
                        } else if pick == 1 {
                            d.is_sink
                        } else {
                            d.initially_stateful
                        },
                ).take(i as int),
            decreases self.node_immutable_data@.len() - i,
        {
            assert(self.immutable()[i as int] == self.node_immutable_data@[i as int]@);
            let d = &self.node_immutable_data[i];
            let f = if pick == 0 {
                d.is_source()
            } else if pick == 1 {
                d.is_sink()
            } else {
                d.initially_stateful()
            };
            flags.push(f);
            i = i + 1;
        }
        assert(self.immutable().map_values(
            |d: NodeImmutableDataView|
                if pick == 0 {
                    d.is_source
                } else if pick == 1 {
                    d.is_sink
                } else {
                    d.initially_stateful
                },
        ).take(i as int) =~= self.immutable().map_values(
            |d: NodeImmutableDataView|
                if pick == 0 {
                    d.is_source
                } else if pick == 1 {
                    d.is_sink
                } else {
                    d.initially_stateful
                },
        ));
        collect_ids(&flags)
    }

    /// The ids of the source nodes, in increasing order.
    pub fn get_all_sources(&self) -> (r: Vec<usize>)
        ensures
            r@ == ids_where(self.immutable().map_values(|d: NodeImmutableDataView| d.is_source)),
    {
        let r = self.collect_flagged(0);
        assert(self.immutable().map_values(
            |d: NodeImmutableDataView|
                if 0u8 == 0 {
                    d.is_source
                } else if 0u8 == 1 {
                    d.is_sink
                } else {
                    d.initially_stateful
                },
        ) =~= self.immutable().map_values(|d: NodeImmutableDataView| d.is_source));
        r
    }

    /// The ids of the sink nodes, in increasing order.
    pub fn get_all_sinks(&self) -> (r: Vec<usize>)
        ensures
            r@ == ids_where(self.immutable().map_values(|d: NodeImmutableDataView| d.is_sink)),
    {
        let r = self.collect_flagged(1);
        assert(self.immutable().map_values(
            |d: NodeImmutableDataView|
                if 1u8 == 0 {
                    d.is_source
                } else if 1u8 == 1 {
                    d.is_sink
                } else {
                    d.initially_stateful
                },
        ) =~= self.immutable().map_values(|d: NodeImmutableDataView| d.is_sink));
        r
    }

    /// The ids of the nodes that start with an initial state, in increasing
    /// order.
    pub fn get_all_initially_stateful(&self) -> (r: Vec<usize>)
        ensures
            r@ == ids_where(
                self.immutable().map_values(|d: NodeImmutableDataView| d.initially_stateful),
            ),
    {
        let r = self.collect_flagged(2);
        assert(self.immutable().map_values(
            |d: NodeImmutableDataView|
                if 2u8 == 0 {
                    d.is_source
                } else if 2u8 == 1 {
                    d.is_sink
                } else {
                    d.initially_stateful
                },
        ) =~= self.immutable().map_values(|d: NodeImmutableDataView| d.initially_stateful));
        r
    }

    /// The number of nodes.
    pub fn len(&self) -> (r: usize)
        ensures
            r == self.num_nodes(),
    {
        self.node_immutable_data.len()
    }

    /// The name of node `id`.
    pub fn get_node_name(&self, id: usize) -> (r: String)
        requires
            id < self.num_nodes(),
        ensures
            r@ == self.immutable()[id as int].name,
    {
        self.node_immutable_data[id].name().clone()
    }

    /// How often node `id` ran, how long its last execution took, and its
    /// state.
    pub fn get_node_analytics(&self, id: usize) -> (r: (usize, u64, PipelineNodeState))
        requires
            id < self.analytics().len(),
        ensures
            r.0 == self.analytics()[id as int].spec_num_executions(),
            r.1 == self.analytics()[id as int].spec_last_execution_time_ns(),
            r.2 == node_state_of_code(self.analytics()[id as int].spec_current_state()),
    {
        let d = &self.master_read_array[id];
        (d.num_executions(), d.last_execution_time_ns(), PipelineNodeState::from_u8(d.current_state()))
    }

    /// Requests source `id` to stop; false where `id` is no source.
    pub fn stop_source(&mut self, id: usize) -> (r: bool)
        ensures
            r == old(self).source_requests().contains_key(id),
            final(self).source_requests() == if r {
                old(self).source_requests().insert(id, node_state_code(PipelineNodeState::Stop))
            } else {
                old(self).source_requests()
            },
            final(self).sink_requests() == old(self).sink_requests(),
            final(self).nodes() == old(self).nodes(),
            final(self).immutable() == old(self).immutable(),
            final(self).analytics() == old(self).analytics(),
    {
        let mut map = request_map_new();
        core::mem::swap(&mut map, &mut self.state_request_map_source);
        let r = request_map_update(&mut map, id, PipelineNodeState::Stop.into_u8());
        self.state_request_map_source = map;
        r
    }

    /// Requests source `id` to run; false where `id` is no source.
    pub fn start_source(&mut self, id: usize) -> (r: bool)
        ensures
            r == old(self).source_requests().contains_key(id),
            final(self).source_requests() == if r {
                old(self).source_requests().insert(id, node_state_code(PipelineNodeState::Run))
            } else {
                old(self).source_requests()
            },
            final(self).sink_requests() == old(self).sink_requests(),
            final(self).nodes() == old(self).nodes(),
            final(self).immutable() == old(self).immutable(),
            final(self).analytics() == old(self).analytics(),
    {
        let mut map = request_map_new();
        core::mem::swap(&mut map, &mut self.state_request_map_source);
        let r = request_map_update(&mut map, id, PipelineNodeState::Run.into_u8());
        self.state_request_map_source = map;
        r
    }

    /// Records one execution of node `id` that took `execution_time_ns`.
    pub fn update_analytics(&mut self, id: usize, execution_time_ns: u64)
        requires
            id < old(self).analytics().len(),
        ensures
            final(self).analytics().len() == old(self).analytics().len(),
            forall|i: int|
                0 <= i < old(self).analytics().len() && i != id ==> final(self).analytics()[i]
                    == old(self).analytics()[i],
            final(self).analytics()[id as int].spec_num_executions() == (if old(
                self,
            ).analytics()[id as int].spec_num_executions() == usize::MAX {
                0
            } else {
                old(self).analytics()[id as int].spec_num_executions() + 1
            }),
            final(self).analytics()[id as int].spec_last_execution_time_ns() == execution_time_ns,
            final(self).analytics()[id as int].spec_current_state() == old(
                self,
            ).analytics()[id as int].spec_current_state(),
            final(self).immutable() == old(self).immutable(),
            final(self).nodes() == old(self).nodes(),
            final(self).source_requests() == old(self).source_requests(),
            final(self).sink_requests() == old(self).sink_requests(),
    {
        let mut array: Vec<NodeMasterReadData> = Vec::new();
        core::mem::swap(&mut array, &mut self.master_read_array);
        let mut d = array[id].clone();
        d.update_analytics(execution_time_ns);
        array.set(id, d);
        self.master_read_array = array;
    }

    /// Does nothing: starting every node is left to the thread pool.
    pub fn start_all(&self) {
    }

    /// Does nothing: stopping every node is left to the thread pool.
    pub fn stop_all(&self) {
    }

    /// Takes node `id` out of the graph, so that one thread alone holds it;
    /// `None` where no node with that id waits in the graph.
    pub fn get_node(&mut self, id: usize) -> (r: Option<(usize, N)>)
        ensures
            r is Some <==> old(self).nodes().contains_key(id),
            r is Some ==> r->Some_0 == (id, old(self).nodes()[id]),
            final(self).nodes() == old(self).nodes().remove(id),
            final(self).immutable() == old(self).immutable(),
            final(self).analytics() == old(self).analytics(),
            final(self).source_requests() == old(self).source_requests(),
            final(self).sink_requests() == old(self).sink_requests(),
    {
        let mut map: HashMap<usize, N> = HashMap::new();
        core::mem::swap(&mut map, &mut self.mutable_state_map);
        let r = map.remove(&id);
        self.mutable_state_map = map;
        match r {
            Some(node) => Some((id, node)),
            None => None,
        }
    }

    /// Whether node `id` waits in the graph.
    pub fn contains_node(&self, id: usize) -> (r: bool)
        ensures
            r == self.nodes().contains_key(id),
    {
        self.mutable_state_map.contains_key(&id)
    }

    /// Puts node `id` back into the graph; where a node with that id already
    /// waits there, the graph keeps it and `None` comes back.
    pub fn place_node(&mut self, id: usize, node: N) -> (r: Option<()>)
        ensures
            r is Some <==> !old(self).nodes().contains_key(id),
            final(self).nodes() == if r is Some {
                old(self).nodes().insert(id, node)
            } else {
                old(self).nodes()
            },
            final(self).immutable() == old(self).immutable(),
            final(self).analytics() == old(self).analytics(),
            final(self).source_requests() == old(self).source_requests(),
            final(self).sink_requests() == old(self).sink_requests(),
    {
        if self.mutable_state_map.contains_key(&id) {
            None
        } else {
            let mut map: HashMap<usize, N> = HashMap::new();
            core::mem::swap(&mut map, &mut self.mutable_state_map);
            map.insert(id, node);
            self.mutable_state_map = map;
            Some(())
        }
    }
}

/// Placing a node under an id the graph does not hold and then taking that id
/// gives the node back and leaves the graph's nodes as they were; taking an id
/// twice gives nothing the second time.
pub proof fn lemma_place_then_get<N>(nodes: Map<usize, N>, id: usize, node: N)
    requires
        !nodes.contains_key(id),
    ensures
        nodes.insert(id, node).contains_key(id),
        nodes.insert(id, node)[id] == node,
        nodes.insert(id, node).remove(id) == nodes,
        !nodes.insert(id, node).remove(id).contains_key(id),
{
    assert(nodes.insert(id, node).remove(id) =~= nodes);
}

/// Taking a node out and placing it back restores the graph's nodes.
pub proof fn lemma_get_then_place<N>(nodes: Map<usize, N>, id: usize)
    requires
        nodes.contains_key(id),
    ensures
        !nodes.remove(id).contains_key(id),
        nodes.remove(id).insert(id, nodes[id]) == nodes,
{
    assert(nodes.remove(id).insert(id, nodes[id]) =~= nodes);
}

/// Stopping a source after starting it leaves it requested to stop, and
/// starting it after stopping leaves it requested to run.
pub proof fn lemma_start_stop_source(requests: Map<usize, u8>, id: usize)
    requires
        requests.contains_key(id),
    ensures
        requests.insert(id, node_state_code(PipelineNodeState::Run)).contains_key(id),
        requests.insert(id, node_state_code(PipelineNodeState::Run)).insert(
            id,
            node_state_code(PipelineNodeState::Stop),
        )[id] == node_state_code(PipelineNodeState::Stop),
        requests.insert(id, node_state_code(PipelineNodeState::Stop)).insert(
            id,
            node_state_code(PipelineNodeState::Run),
        )[id] == node_state_code(PipelineNodeState::Run),
{
}

} // verus!
