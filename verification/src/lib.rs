//! A nondeterministic finite automaton (NFA) core: value-typed states,
//! direction-normalized labeled edges, and a read-only graph view offering
//! the two reachability primitives of NFA simulation, `move_states` and
//! `epsilon_nearest_closure`.

use vstd::prelude::*;

verus! {

/// One automaton node, identified by an integer and compared by value.
#[derive(Debug, Copy, Clone, PartialEq, Eq, Structural)]
pub struct Node {
    pub v: i32,
}

pub type State = Node;

impl Node {
    /// Creates the batch of nodes `0, 1, ..., n - 1`, in ascending order.
    /// A non-positive `n` yields an empty batch.
    pub fn spawn(n: i32) -> (r: Vec<Node>)
        ensures
            r@.len() == if n >= 0 { n as int } else { 0int },
            forall|i: int| 0 <= i < r@.len() ==> r@[i].v == i,
    {
        let count: i32 = if n < 0 { 0 } else { n };
        let mut acc: Vec<Node> = Vec::new();
        let mut i: i32 = 0;
        while i < count
            invariant
                0 <= i <= count,
                acc@.len() == i as int,
                forall|j: int| 0 <= j < acc@.len() ==> acc@[j].v == j,
            decreases count - i,
        {
            acc.push(Node { v: i });
            i = i + 1;
        }
        acc
    }
}

/// Two nodes are equal exactly when their identifiers are: equality is a
/// function of `v` alone.
pub proof fn lemma_node_value_equality(a: Node, b: Node)
    ensures
        (a == b) <==> (a.v == b.v),
{
}

/// A directed, labeled transition between two nodes. Non-epsilon edges built
/// by `spawn` are stored head-normalized (lower identifier first); epsilon
/// edges keep their direction exactly as given.
#[derive(Debug)]
pub struct Edge {
    pub head: Node,
    pub tail: Node,
    pub label: String,
    pub epsilon: bool,
}

impl Edge {
    fn spawn_inner(s1: Node, s2: Node, name: &str, epsilon: bool) -> (r: Edge)
        ensures
            r.head == s1,
            r.tail == s2,
            r.label@ == name@,
            r.epsilon == epsilon,
    {
        Edge { head: s1, tail: s2, label: name.to_owned(), epsilon }
    }

    /// A non-epsilon transition, normalized so that the endpoint with the
    /// smaller identifier becomes the head, whatever order the caller gave.
    pub fn spawn(s1: Node, s2: Node, name: &str) -> (r: Edge)
        ensures
            r.label@ == name@,
            !r.epsilon,
            s1.v > s2.v ==> r.head == s2 && r.tail == s1,
            s1.v <= s2.v ==> r.head == s1 && r.tail == s2,
            r.head.v <= r.tail.v,
    {
        if s1.v > s2.v {
            Edge::spawn_inner(s2, s1, name, false)
        } else {
            Edge::spawn_inner(s1, s2, name, false)
        }
    }

    /// A non-epsilon self-loop on `s`.
    pub fn spawn_loop(s: Node, name: &str) -> (r: Edge)
        ensures
            r.head == s,
            r.tail == s,
            r.label@ == name@,
            !r.epsilon,
    {
        Edge::spawn_inner(s, s, name, false)
    }

    /// An epsilon transition from `s1` to `s2`, direction preserved exactly
    /// as given (no normalization), labeled with the literal "epsilon".
    pub fn spawn_epsilon(s1: Node, s2: Node) -> (r: Edge)
        ensures
            r.head == s1,
            r.tail == s2,
            r.label@ == "epsilon"@,
            r.epsilon,
    {
        Edge::spawn_inner(s1, s2, "epsilon", true)
    }

    /// The stored epsilon flag; algorithms branch on this, never on the
    /// label text.
    pub fn is_epsilon(&self) -> (r: bool)
        ensures
            r == self.epsilon,
    {
        self.epsilon
    }

    /// True exactly when head and tail carry the same identifier, whatever
    /// the epsilon flag says.
    pub fn is_loop(&self) -> (r: bool)
        ensures
            r == (self.head.v == self.tail.v),
    {
        self.head.v == self.tail.v
    }
}

/// Whether `e` carries one `a`-labeled step out of `s`: inclusion in a
/// `move_states` result goes by exact label equality and head identity alone.
pub open spec fn edge_matches(e: Edge, s: Node, a: Seq<char>) -> bool {
    e.label@ == a && e.head == s
}

/// The tails of every edge in `edges` that matches source `s` and label `a`,
/// in edge-sequence order, duplicates kept.
pub open spec fn move_targets(edges: Seq<Edge>, s: Node, a: Seq<char>) -> Seq<Node>
    decreases edges.len(),
{
    if edges.len() == 0 {
        Seq::empty()
    } else if edge_matches(edges.last(), s, a) {
        move_targets(edges.drop_last(), s, a).push(edges.last().tail)
    } else {
        move_targets(edges.drop_last(), s, a)
    }
}

/// The move function over a source sequence: for each source in the given
/// order, all of its `a`-labeled targets in edge-sequence order, concatenated
/// without deduplication.
pub open spec fn move_result(edges: Seq<Edge>, sources: Seq<Node>, a: Seq<char>) -> Seq<Node>
    decreases sources.len(),
{
    if sources.len() == 0 {
        Seq::empty()
    } else {
        move_result(edges, sources.drop_last(), a) + move_targets(edges, sources.last(), a)
    }
}

/// Whether `e` is an epsilon step out of `s`: inclusion in an
/// `epsilon_nearest_closure` result goes by the epsilon flag, never by the
/// label text.
pub open spec fn epsilon_matches(e: Edge, s: Node) -> bool {
    e.epsilon && e.head == s
}

/// The tails of every epsilon edge in `edges` whose head is `s`, in
/// edge-sequence order: the one-hop epsilon neighbors of `s`.
pub open spec fn epsilon_targets(edges: Seq<Edge>, s: Node) -> Seq<Node>
    decreases edges.len(),
{
    if edges.len() == 0 {
        Seq::empty()
    } else if epsilon_matches(edges.last(), s) {
        epsilon_targets(edges.drop_last(), s).push(edges.last().tail)
    } else {
        epsilon_targets(edges.drop_last(), s)
    }
}

/// A read-only view over caller-owned state and edge sequences; every query
/// is a pure function of the bound edge sequence.
#[derive(Debug)]
pub struct Graph<'a> {
    pub states: &'a Vec<Node>,
    pub edges: &'a Vec<Edge>,
}

pub type NFA<'a> = Graph<'a>;

impl<'a> Graph<'a> {
    /// Binds the view. No validation is performed: whether the edges
    /// reference nodes present in `states` is the caller's contract.
    pub fn make(states: &'a Vec<Node>, edges: &'a Vec<Edge>) -> (r: Graph<'a>)
        ensures
            r.states == states,
            r.edges == edges,
    {
        Graph { states, edges }
    }

    /// Every node reachable from some node of `states` by exactly one edge
    /// whose label equals `a`, iterating the sources in the given order and,
    /// for each, the edges in sequence order; repeated targets are kept.
    pub fn move_states(&self, states: &Vec<Node>, a: &str) -> (r: Vec<Node>)
        ensures
            r@ == move_result(self.edges@, states@, a@),
    {
        let label: String = a.to_owned();
        let mut acc: Vec<Node> = Vec::new();
        let mut i: usize = 0;
        while i < states.len()
            invariant
                i <= states@.len(),
                label@ == a@,
                acc@ == move_result(self.edges@, states@.take(i as int), a@),
            decreases states@.len() - i,
        {
            let s = states[i];
            let mut j: usize = 0;
            while j < self.edges.len()
                invariant
                    j <= self.edges@.len(),
                    label@ == a@,
                    i < states@.len(),
                    s == states@[i as int],
                    acc@ == move_result(self.edges@, states@.take(i as int), a@)
                        + move_targets(self.edges@.take(j as int), s, a@),
                decreases self.edges@.len() - j,
            {
                let e = &self.edges[j];
                if e.label == label && e.head == s {
                    acc.push(e.tail);
                }
                proof {
                    assert(self.edges@.take(j + 1).drop_last() =~= self.edges@.take(j as int));
                }
                j = j + 1;
            }
            proof {
                assert(self.edges@.take(self.edges@.len() as int) =~= self.edges@);
                assert(states@.take(i + 1).drop_last() =~= states@.take(i as int));
            }
            i = i + 1;
        }
        proof {
            assert(states@.take(states@.len() as int) =~= states@);
        }
        acc
    }

    /// The one-hop epsilon neighbors of `s`: every tail reachable from `s`
    /// by exactly one epsilon edge, in edge-sequence order. Epsilon chains
    /// are not followed transitively.
    pub fn epsilon_nearest_closure(&self, s: Node) -> (r: Vec<Node>)
        ensures
            r@ == epsilon_targets(self.edges@, s),
    {
        let mut acc: Vec<Node> = Vec::new();
        let mut j: usize = 0;
        while j < self.edges.len()
            invariant
                j <= self.edges@.len(),
                acc@ == epsilon_targets(self.edges@.take(j as int), s),
            decreases self.edges@.len() - j,
        {
            let e = &self.edges[j];
            if e.is_epsilon() && s == e.head {
                acc.push(e.tail);
            }
            proof {
                assert(self.edges@.take(j + 1).drop_last() =~= self.edges@.take(j as int));
            }
            j = j + 1;
        }
        proof {
            assert(self.edges@.take(self.edges@.len() as int) =~= self.edges@);
        }
        acc
    }
}

/// Graph queries are pure: each result is determined by the edge sequence
/// and the query arguments alone, so two queries over equal inputs return
/// equal sequences, and no query depends on anything it could mutate.
pub proof fn lemma_queries_pure(
    edges1: Seq<Edge>,
    edges2: Seq<Edge>,
    sources1: Seq<Node>,
    sources2: Seq<Node>,
    a1: Seq<char>,
    a2: Seq<char>,
    s1: Node,
    s2: Node,
)
    requires
        edges1 == edges2,
        sources1 == sources2,
        a1 == a2,
        s1 == s2,
    ensures
        move_result(edges1, sources1, a1) == move_result(edges2, sources2, a2),
        epsilon_targets(edges1, s1) == epsilon_targets(edges2, s2),
{
}

/// The move function over an empty source sequence is empty, whatever the
/// edges and the label.
pub proof fn lemma_move_empty_sources(edges: Seq<Edge>, a: Seq<char>)
    ensures
        move_result(edges, Seq::empty(), a) == Seq::<Node>::empty(),
{
}

/// A node with no outgoing epsilon edge has an empty one-hop epsilon
/// neighborhood: absence of epsilon transitions is a normal terminal case,
/// not an error.
pub proof fn lemma_epsilon_targets_empty(edges: Seq<Edge>, s: Node)
    requires
        forall|i: int| 0 <= i < edges.len() ==> !epsilon_matches(edges[i], s),
    ensures
        epsilon_targets(edges, s) == Seq::<Node>::empty(),
    decreases edges.len(),
{
    if edges.len() > 0 {
        assert(forall|i: int|
            0 <= i < edges.drop_last().len() ==> !epsilon_matches(
                #[trigger] edges.drop_last()[i],
                s,
            ));
        lemma_epsilon_targets_empty(edges.drop_last(), s);
    }
}

} // verus!
