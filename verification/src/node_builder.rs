use crate::name_order::{bytes_le, lemma_bytes_le_total, lemma_bytes_le_transitive, name_key, name_le};
use crate::node_traits::RunModel;
use vstd::prelude::*;

verus! {

/// Settings shared by every node of a pipeline.
#[derive(Clone)]
pub struct PipelineParameters {
    pub buff_size: usize,
}

impl PipelineParameters {
    pub fn new(buff_size: usize) -> (p: Self)
        ensures
            p.buff_size == buff_size,
    {
        Self { buff_size }
    }
}

/// Whether the entries are ordered by name.
pub open spec fn sorted_by_name<N>(s: Seq<(usize, String, N)>) -> bool {
    forall|i: int, j: int|
        0 <= i < j < s.len() ==> bytes_le(name_key(#[trigger] s[i].1), name_key(#[trigger] s[j].1))
}

/// Where an entry `x` goes when it is inserted by name into `s`: past the
/// leading entries whose name is not greater than its own.
pub open spec fn name_insert_point<N>(s: Seq<(usize, String, N)>, x: (usize, String, N)) -> int
    decreases s.len(),
{
    if s.len() == 0 {
        0
    } else if bytes_le(name_key(s[0].1), name_key(x.1)) {
        1 + name_insert_point(s.drop_first(), x)
    } else {
        0
    }
}

/// The entries that inserting `inputs` one after the other by name gives.
pub open spec fn entries_built<N>(inputs: Seq<(usize, String, N)>) -> Seq<(usize, String, N)>
    decreases inputs.len(),
{
    if inputs.len() == 0 {
        Seq::empty()
    } else {
        let s = entries_built(inputs.drop_last());
        s.insert(name_insert_point(s, inputs.last()), inputs.last())
    }
}

/// Whether position `p` splits `s` into the entries whose name is not
/// greater than `x`'s and the rest.
pub open spec fn splits_at<N>(s: Seq<(usize, String, N)>, x: (usize, String, N), p: int) -> bool {
    &&& 0 <= p <= s.len()
    &&& forall|i: int| 0 <= i < p ==> bytes_le(name_key(#[trigger] s[i].1), name_key(x.1))
    &&& forall|i: int| p <= i < s.len() ==> !bytes_le(name_key(#[trigger] s[i].1), name_key(x.1))
}

/// The insertion point is the one position that splits the entries.
proof fn lemma_insert_point_at<N>(s: Seq<(usize, String, N)>, x: (usize, String, N), p: int)
    requires
        splits_at(s, x, p),
    ensures
        name_insert_point(s, x) == p,
    decreases s.len(),
{
    if s.len() > 0 {
        if p == 0 {
            assert(!bytes_le(name_key(s[0].1), name_key(x.1)));
        } else {
            assert(bytes_le(name_key(s[0].1), name_key(x.1)));
            let t = s.drop_first();
            assert forall|i: int| 0 <= i < p - 1 implies bytes_le(
                name_key(#[trigger] t[i].1),
                name_key(x.1),
            ) by {
                assert(t[i] == s[i + 1]);
            }
            assert forall|i: int| p - 1 <= i < t.len() implies !bytes_le(
                name_key(#[trigger] t[i].1),
                name_key(x.1),
            ) by {
                assert(t[i] == s[i + 1]);
            }
            lemma_insert_point_at(t, x, p - 1);
        }
    }
}

/// In entries ordered by name, the insertion point splits them.
proof fn lemma_insert_point_splits<N>(s: Seq<(usize, String, N)>, x: (usize, String, N))
    requires
        sorted_by_name(s),
    ensures
        splits_at(s, x, name_insert_point(s, x)),
    decreases s.len(),
{
    if s.len() > 0 {
        let t = s.drop_first();
        if bytes_le(name_key(s[0].1), name_key(x.1)) {
            assert forall|i: int, j: int| 0 <= i < j < t.len() implies bytes_le(
                name_key(#[trigger] t[i].1),
                name_key(#[trigger] t[j].1),
            ) by {
                assert(t[i] == s[i + 1] && t[j] == s[j + 1]);
            }
            lemma_insert_point_splits(t, x);
            let q = name_insert_point(t, x);
            assert forall|i: int| 0 <= i < q + 1 implies bytes_le(
                name_key(#[trigger] s[i].1),
                name_key(x.1),
            ) by {
                if i > 0 {
                    assert(s[i] == t[i - 1]);
                }
            }
            assert forall|i: int| q + 1 <= i < s.len() implies !bytes_le(
                name_key(#[trigger] s[i].1),
                name_key(x.1),
            ) by {
                assert(s[i] == t[i - 1]);
            }
        } else {
            assert forall|i: int| 0 <= i < s.len() implies !bytes_le(
                name_key(#[trigger] s[i].1),
                name_key(x.1),
            ) by {
                if i > 0 && bytes_le(name_key(s[i].1), name_key(x.1)) {
                    assert(bytes_le(name_key(s[0].1), name_key(s[i].1)));
                    lemma_bytes_le_transitive(name_key(s[0].1), name_key(s[i].1), name_key(x.1));
                }
            }
        }
    }
}

/// Inserting at a splitting position keeps entries ordered by name.
proof fn lemma_insert_keeps_sorted<N>(s: Seq<(usize, String, N)>, x: (usize, String, N), p: int)
    requires
        sorted_by_name(s),
        splits_at(s, x, p),
    ensures
        sorted_by_name(s.insert(p, x)),
{
    let n = s.insert(p, x);
    assert forall|i: int, j: int| 0 <= i < j < n.len() implies bytes_le(
        name_key(#[trigger] n[i].1),
        name_key(#[trigger] n[j].1),
    ) by {
        if j < p {
            assert(n[i] == s[i] && n[j] == s[j]);
        } else if j == p {
            assert(n[i] == s[i]);
        } else if i < p {
            assert(n[i] == s[i] && n[j] == s[j - 1]);
        } else if i == p {
            assert(n[j] == s[j - 1]);
            lemma_bytes_le_total(name_key(s[j - 1].1), name_key(x.1));
        } else {
            assert(n[i] == s[i - 1] && n[j] == s[j - 1]);
        }
    }
}

/// Every name is not greater than itself.
proof fn lemma_bytes_le_reflexive(a: Seq<u8>)
    ensures
        bytes_le(a, a),
{
    lemma_bytes_le_total(a, a);
}

/// Whether an entry carries the name bytes `k`.
pub open spec fn has_name_key<N>(k: Seq<u8>) -> spec_fn((usize, String, N)) -> bool {
    |e: (usize, String, N)| name_key(e.1) == k
}

/// Adding entries one by one keeps them as a stable sort by name of what
/// was added: ordered by name, holding exactly the entries added (as a
/// multiset), and, among the entries of any one name `k`, in the order in
/// which they were added.
pub proof fn lemma_built_entries_are_stably_sorted<N>(inputs: Seq<(usize, String, N)>, k: Seq<u8>)
    ensures
        sorted_by_name(entries_built(inputs)),
        entries_built(inputs).to_multiset() == inputs.to_multiset(),
        entries_built(inputs).filter(has_name_key::<N>(k)) == inputs.filter(has_name_key::<N>(k)),
    decreases inputs.len(),
{
    broadcast use vstd::seq_lib::to_multiset_insert, vstd::seq_lib::to_multiset_build;

    if inputs.len() == 0 {
        assert(inputs =~= Seq::<(usize, String, N)>::empty());
        assert(entries_built(inputs) =~= inputs);
    } else {
        let rest = inputs.drop_last();
        let x = inputs.last();
        lemma_built_entries_are_stably_sorted(rest, k);
        let s = entries_built(rest);
        let p = name_insert_point(s, x);
        lemma_insert_point_splits(s, x);
        lemma_insert_keeps_sorted(s, x, p);
        assert(inputs =~= rest.push(x));
        let pred = has_name_key::<N>(k);
        let e = Seq::<(usize, String, N)>::empty();
        assert(e.filter(pred).len() == 0) by {
            e.lemma_filter_len(pred);
        }
        assert(e.filter(pred) =~= e);
        e.lemma_filter_push(x, pred);
        assert(seq![x] =~= e.push(x));
        rest.lemma_filter_push(x, pred);
        let a = s.take(p);
        let b = s.skip(p);
        assert(s =~= a + b);
        assert(s.insert(p, x) =~= (a + seq![x]) + b);
        Seq::filter_distributes_over_add(a, b, pred);
        Seq::filter_distributes_over_add(a, seq![x], pred);
        Seq::filter_distributes_over_add(a + seq![x], b, pred);
        if pred(x) {
            assert forall|i: int| 0 <= i < b.len() implies !pred(#[trigger] b[i]) by {
                assert(b[i] == s[p + i]);
                lemma_bytes_le_reflexive(name_key(x.1));
            }
            assert(b.filter(pred).len() == 0) by {
                b.lemma_all_neg_filter_empty(pred);
            }
            assert(b.filter(pred) =~= e);
            assert(entries_built(inputs).filter(pred) =~= s.filter(pred).push(x));
        } else {
            assert(entries_built(inputs).filter(pred) =~= s.filter(pred));
        }
    }
}

/// The entries of a build vector, with the entries added, in the order in
/// which they were added.
struct BuiltEntries<N> {
    nodes: Vec<(usize, String, N)>,
    added: Ghost<Seq<(usize, String, N)>>,
}

/// The nodes of a pipeline under construction, kept ordered by name, with
/// the pipeline's parameters.
pub struct PipelineBuildVector<N> {
    built: BuiltEntries<N>,
    parameters: PipelineParameters,
}

impl<N> PipelineBuildVector<N> {
    #[verifier::type_invariant]
    spec fn inv(self) -> bool {
        &&& sorted_by_name(self.built.nodes@)
        &&& self.built.nodes@ == entries_built(self.built.added@)
    }

    /// The entries (id, name, node), in order.
    pub closed spec fn entries(&self) -> Seq<(usize, String, N)> {
        self.built.nodes@
    }

    /// The entries added so far, in the order in which they were added.
    pub closed spec fn spec_added(&self) -> Seq<(usize, String, N)> {
        self.built.added@
    }

    pub closed spec fn spec_parameters(&self) -> PipelineParameters {
        self.parameters
    }

    /// An empty vector with the given parameters.
    pub fn new(pipeline_parameters: PipelineParameters) -> (v: Self)
        ensures
            v.entries().len() == 0,
            v.spec_added().len() == 0,
            v.entries() == entries_built(v.spec_added()),
            v.spec_parameters() == pipeline_parameters,
    {
        let built = BuiltEntries { nodes: Vec::new(), added: Ghost(Seq::empty()) };
        assert(built.nodes@ =~= entries_built(built.added@));
        PipelineBuildVector { built, parameters: pipeline_parameters }
    }

    /// Adds a node and keeps the entries ordered by name: the node goes after
    /// every entry whose name is not greater than its own, and before the
    /// others, as a stable sort would place it. The entries stay those that
    /// inserting every node added, in turn, gives.
    pub fn add_node(&mut self, node: (usize, String, N))
        ensures
            sorted_by_name(final(self).entries()),
            final(self).spec_parameters() == old(self).spec_parameters(),
            final(self).spec_added() == old(self).spec_added().push(node),
            final(self).entries() == entries_built(final(self).spec_added()),
            final(self).entries() == old(self).entries().insert(
                name_insert_point(old(self).entries(), node),
                node,
            ),
            splits_at(old(self).entries(), node, name_insert_point(old(self).entries(), node)),
    {
        proof {
            use_type_invariant(&*self);
        }
        let ghost old_nodes = self.built.nodes@;
        let mut p: usize = 0;
        while p < self.built.nodes.len() && name_le(&self.built.nodes[p].1, &node.1)
            invariant
                old_nodes == self.built.nodes@,
                sorted_by_name(old_nodes),
                0 <= p <= old_nodes.len(),
                forall|i: int|
                    0 <= i < p ==> bytes_le(name_key(#[trigger] old_nodes[i].1), name_key(node.1)),
            decreases old_nodes.len() - p,
        {
            p = p + 1;
        }
        proof {
            assert forall|i: int| p <= i < old_nodes.len() implies !bytes_le(
                name_key(#[trigger] old_nodes[i].1),
                name_key(node.1),
            ) by {
                if bytes_le(name_key(old_nodes[i].1), name_key(node.1)) {
                    if p < i {
                        assert(bytes_le(name_key(old_nodes[p as int].1), name_key(old_nodes[i].1)));
                    }
                    lemma_bytes_le_transitive(
                        name_key(old_nodes[p as int].1),
                        name_key(old_nodes[i].1),
                        name_key(node.1),
                    );
                }
            }
            assert(splits_at(old_nodes, node, p as int));
            lemma_insert_point_at(old_nodes, node, p as int);
            lemma_insert_keeps_sorted(old_nodes, node, p as int);
        }
        let mut built = BuiltEntries { nodes: Vec::new(), added: Ghost(Seq::empty()) };
        proof {
            assert(built.nodes@ =~= entries_built(built.added@));
        }
        core::mem::swap(&mut built, &mut self.built);
        let ghost old_added = built.added@;
        let mut nodes = built.nodes;
        nodes.insert(p, node);
        let ghost new_added = old_added.push(node);
        proof {
            assert(new_added.drop_last() =~= old_added);
        }
        self.built = BuiltEntries { nodes, added: Ghost(new_added) };
    }

    /// Gives up the entries, in order.
    pub fn consume(self) -> (r: Vec<(usize, String, N)>)
        ensures
            r@ == self.entries(),
    {
        self.built.nodes
    }

    pub fn get_parameters(&self) -> (r: &PipelineParameters)
        ensures
            *r == self.spec_parameters(),
    {
        &self.parameters
    }
}

/// The kind of node a building node turns into.
#[derive(PartialEq, Eq, Structural, Debug, Clone, Copy)]
pub enum IntoWhat {
    CpuNode,
    IoNode,
    InterleaverNode,
    DeconstructorNode,
    ReconstructorNode,
}

impl IntoWhat {
    /// The run model of the node kind: CPU for compute and interleaving
    /// nodes, IO for asynchronous nodes, communicator for the rest.
    pub fn run_model(&self) -> (r: RunModel)
        ensures
            r == (match *self {
                IntoWhat::CpuNode | IntoWhat::InterleaverNode => RunModel::CPU,
                IntoWhat::IoNode => RunModel::IO,
                _ => RunModel::Communicator,
            }),
    {
        match self {
            IntoWhat::CpuNode | IntoWhat::InterleaverNode => RunModel::CPU,
            IntoWhat::IoNode => RunModel::IO,
            _ => RunModel::Communicator,
        }
    }
}

} // verus!
