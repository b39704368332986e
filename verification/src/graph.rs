//! A render graph: named units of per-frame work with explicit ordering edges.
//!
//! Node names are unique; registering a name a second time fails rather than
//! silently overwriting the node already there. An ordering edge can only be
//! drawn between nodes that exist, so a mistyped or missing node name is
//! surfaced at registration time.

use vstd::prelude::*;

verus! {

/// Why a graph mutation was refused.
#[derive(PartialEq, Eq, Structural, Clone, Copy, Debug)]
pub enum GraphError {
    /// A node with the requested name is already registered.
    DuplicateNodeName,
    /// An edge endpoint names no registered node.
    MissingNode,
}

/// Whether `nodes` holds `name`.
pub open spec fn nodes_contain(nodes: Seq<Seq<char>>, name: Seq<char>) -> bool {
    exists|i: int| 0 <= i < nodes.len() && nodes[i] == name
}

/// The effect of registering a node name on the name list: the list with the
/// name appended and `true` on success, the list unchanged and `false` when
/// the name is already taken.
pub open spec fn spec_add_node(nodes: Seq<Seq<char>>, name: Seq<char>) -> (Seq<Seq<char>>, bool) {
    if nodes_contain(nodes, name) {
        (nodes, false)
    } else {
        (nodes.push(name), true)
    }
}

/// Node names are unique: registering a name that a previous registration
/// accepted must fail, and the failed attempt leaves the name list unchanged.
pub proof fn lemma_duplicate_node_rejected(nodes: Seq<Seq<char>>, name: Seq<char>)
    requires
        spec_add_node(nodes, name).1,
    ensures
        !spec_add_node(spec_add_node(nodes, name).0, name).1,
        spec_add_node(spec_add_node(nodes, name).0, name).0 == spec_add_node(nodes, name).0,
{
    let grown = spec_add_node(nodes, name).0;
    assert(grown[nodes.len() as int] == name);
    assert(nodes_contain(grown, name));
}

/// A graph of uniquely named nodes and ordering edges between them.
pub struct RenderGraph {
    nodes: Vec<String>,
    edges: Vec<(String, String)>,
}

impl RenderGraph {
    /// The registered node names, in registration order.
    pub closed spec fn nodes(&self) -> Seq<Seq<char>> {
        self.nodes@.map_values(|s: String| s@)
    }

    /// The ordering edges, each `(before, after)`, in registration order.
    pub closed spec fn edges(&self) -> Seq<(Seq<char>, Seq<char>)> {
        self.edges@.map_values(|e: (String, String)| (e.0@, e.1@))
    }

    /// A node with this name is registered.
    pub open spec fn has_node(&self, name: Seq<char>) -> bool {
        nodes_contain(self.nodes(), name)
    }

    /// Node names are unique and every edge endpoint is a registered node.
    pub open spec fn wf(&self) -> bool {
        &&& forall|i: int, j: int|
            0 <= i < j < self.nodes().len() ==> self.nodes()[i] != self.nodes()[j]
        &&& forall|i: int|
            0 <= i < self.edges().len() ==> #[trigger] self.has_node(self.edges()[i].0)
                && self.has_node(self.edges()[i].1)
    }

    /// An empty graph.
    pub fn new() -> (g: RenderGraph)
        ensures
            g.nodes() == Seq::<Seq<char>>::empty(),
            g.edges() == Seq::<(Seq<char>, Seq<char>)>::empty(),
            g.wf(),
    {
        let g = RenderGraph { nodes: Vec::new(), edges: Vec::new() };
        proof {
            assert(g.nodes() =~= Seq::<Seq<char>>::empty());
            assert(g.edges() =~= Seq::<(Seq<char>, Seq<char>)>::empty());
        }
        g
    }

    /// Whether a node with this name is registered.
    pub fn contains_node(&self, name: &String) -> (present: bool)
        ensures
            present == self.has_node(name@),
    {
        let n = self.nodes.len();
        let mut i: usize = 0;
        while i < n
            invariant
                n == self.nodes@.len(),
                0 <= i <= n,
                forall|k: int| 0 <= k < i ==> self.nodes()[k] != name@,
            decreases n - i,
        {
            if self.nodes[i] == *name {
                assert(self.nodes()[i as int] == name@);
                return true;
            }
            i += 1;
        }
        false
    }

    /// Registers a node under `name`. Fails, changing nothing, when the name
    /// is already taken; the edges never change.
    pub fn add_system_node(&mut self, name: String) -> (r: Result<(), GraphError>)
        requires
            old(self).wf(),
        ensures
            final(self).wf(),
            (final(self).nodes(), r is Ok) == spec_add_node(old(self).nodes(), name@),
            final(self).edges() == old(self).edges(),
            r is Err ==> r == Err::<(), GraphError>(GraphError::DuplicateNodeName)
                && *final(self) == *old(self),
    {
        if self.contains_node(&name) {
            return Err(GraphError::DuplicateNodeName);
        }
        let ghost old_nodes = self.nodes();
        self.nodes.push(name);
        proof {
            assert(self.nodes() =~= old_nodes.push(name@));
            assert(self.edges() == old(self).edges());
            assert forall|i: int|
                0 <= i < self.edges().len() implies #[trigger] self.has_node(self.edges()[i].0)
                    && self.has_node(self.edges()[i].1) by {
                assert(old(self).has_node(old(self).edges()[i].0));
                assert(old(self).has_node(old(self).edges()[i].1));
                let w0 = choose|k: int| 0 <= k < old_nodes.len() && old_nodes[k] == self.edges()[i].0;
                assert(self.nodes()[w0] == self.edges()[i].0);
                let w1 = choose|k: int| 0 <= k < old_nodes.len() && old_nodes[k] == self.edges()[i].1;
                assert(self.nodes()[w1] == self.edges()[i].1);
            }
        }
        Ok(())
    }

    /// Registers an ordering edge forcing the node named `before` to run
    /// ahead of the node named `after`. Fails, changing nothing, when either
    /// name is not registered; the nodes never change.
    pub fn add_node_edge(&mut self, before: String, after: String) -> (r: Result<(), GraphError>)
        requires
            old(self).wf(),
        ensures
            final(self).wf(),
            r is Ok <==> old(self).has_node(before@) && old(self).has_node(after@),
            r is Ok ==> final(self).edges() == old(self).edges().push((before@, after@)),
            final(self).nodes() == old(self).nodes(),
            r is Err ==> r == Err::<(), GraphError>(GraphError::MissingNode)
                && *final(self) == *old(self),
    {
        if !self.contains_node(&before) || !self.contains_node(&after) {
            return Err(GraphError::MissingNode);
        }
        let ghost old_edges = self.edges();
        self.edges.push((before, after));
        proof {
            assert(self.edges() =~= old_edges.push((before@, after@)));
            assert forall|i: int|
                0 <= i < self.edges().len() implies #[trigger] self.has_node(self.edges()[i].0)
                    && self.has_node(self.edges()[i].1) by {
                if i < old_edges.len() {
                    assert(old(self).has_node(old(self).edges()[i].0));
                    assert(old(self).has_node(old(self).edges()[i].1));
                }
                assert(self.nodes() == old(self).nodes());
            }
        }
        Ok(())
    }
}

} // verus!
