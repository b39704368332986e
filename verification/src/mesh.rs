//! Meshes: a geometry buffer of vertex positions plus named per-vertex
//! attribute channels.
//!
//! Every attribute channel carries exactly one value per vertex; an array of
//! any other length is a malformed asset and is rejected when it is bound,
//! before any draw could consume it. Attribute names are unique within a
//! mesh; binding an existing name replaces that channel's data.

use vstd::prelude::*;
use crate::color::{Position, Rgb};

verus! {

/// Why a mesh mutation was refused.
#[derive(PartialEq, Eq, Structural, Clone, Copy, Debug)]
pub enum MeshError {
    /// The attribute array's length differs from the mesh's vertex count.
    AttributeLengthMismatch,
}

/// One named per-vertex data channel.
pub struct VertexAttribute {
    pub name: String,
    pub values: Vec<Rgb>,
}

/// A geometry buffer shared by reference across renderable objects.
pub struct Mesh {
    positions: Vec<Position>,
    attributes: Vec<VertexAttribute>,
}

impl Mesh {
    /// The vertex positions, in buffer order.
    pub closed spec fn positions(&self) -> Seq<Position> {
        self.positions@
    }

    /// The attribute channels, in binding order.
    pub closed spec fn attributes(&self) -> Seq<VertexAttribute> {
        self.attributes@
    }

    /// An attribute channel under this name is bound.
    pub open spec fn has_attribute(&self, name: Seq<char>) -> bool {
        exists|i: int| 0 <= i < self.attributes().len() && self.attributes()[i].name@ == name
    }

    /// The index of the channel bound under `name`.
    pub open spec fn attribute_index(&self, name: Seq<char>) -> int {
        choose|i: int| 0 <= i < self.attributes().len() && self.attributes()[i].name@ == name
    }

    /// The values of the channel bound under `name`, one per vertex.
    pub open spec fn attribute_values(&self, name: Seq<char>) -> Seq<Rgb> {
        self.attributes()[self.attribute_index(name)].values@
    }

    /// Attribute names are unique.
    pub open spec fn names_unique(&self) -> bool {
        forall|i: int, j: int|
            0 <= i < j < self.attributes().len()
                ==> self.attributes()[i].name@ != self.attributes()[j].name@
    }

    /// Attribute names are unique and every channel holds one value per vertex.
    pub open spec fn wf(&self) -> bool {
        &&& self.names_unique()
        &&& forall|i: int|
            0 <= i < self.attributes().len()
                ==> (#[trigger] self.attributes()[i].values@).len() == self.positions().len()
    }

    /// A mesh over the given positions, with no attribute channels yet.
    pub fn new(positions: Vec<Position>) -> (m: Mesh)
        ensures
            m.positions() == positions@,
            m.attributes() == Seq::<VertexAttribute>::empty(),
            m.wf(),
    {
        let m = Mesh { positions, attributes: Vec::new() };
        proof {
            assert(m.attributes() =~= Seq::<VertexAttribute>::empty());
        }
        m
    }

    /// How many vertices the geometry buffer holds.
    pub fn vertex_count(&self) -> (n: usize)
        ensures
            n == self.positions().len(),
    {
        self.positions.len()
    }

    /// The vertex positions.
    pub fn position_data(&self) -> (p: &Vec<Position>)
        ensures
            p@ == self.positions(),
    {
        &self.positions
    }

    /// Binds `values` as the per-vertex attribute channel named `name`.
    ///
    /// Succeeds exactly when `values` holds one entry per vertex; a channel
    /// already bound under `name` is replaced, every other channel and the
    /// geometry are untouched. On a length mismatch nothing changes and the
    /// malformed array is reported.
    pub fn set_attribute(&mut self, name: String, values: Vec<Rgb>) -> (r: Result<(), MeshError>)
        requires
            old(self).wf(),
        ensures
            final(self).wf(),
            r is Ok <==> values@.len() == old(self).positions().len(),
            r is Err ==> r == Err::<(), MeshError>(MeshError::AttributeLengthMismatch)
                && *final(self) == *old(self),
            final(self).positions() == old(self).positions(),
            r is Ok ==> final(self).has_attribute(name@)
                && final(self).attribute_values(name@) == values@,
            r is Ok ==> forall|n: Seq<char>|
                n != name@ ==> final(self).has_attribute(n) == old(self).has_attribute(n),
            r is Ok ==> forall|n: Seq<char>|
                n != name@ && old(self).has_attribute(n)
                    ==> final(self).attribute_values(n) == old(self).attribute_values(n),
    {
        if values.len() != self.positions.len() {
            return Err(MeshError::AttributeLengthMismatch);
        }
        let ghost gname = name@;
        let ghost gvalues = values@;
        let ghost pre = *self;
        let count = self.attributes.len();
        let mut i: usize = 0;
        while i < count
            invariant
                count == self.attributes@.len(),
                0 <= i <= count,
                forall|k: int| 0 <= k < i ==> self.attributes()[k].name@ != gname,
                *self == pre,
                pre == *old(self),
                pre.wf(),
                gvalues.len() == pre.positions().len(),
                name@ == gname,
                values@ == gvalues,
            decreases count - i,
        {
            if self.attributes[i].name == name {
                proof {
                    assert(pre.attributes()[i as int].name@ == gname);
                }
                self.attributes[i] = VertexAttribute { name, values };
                proof {
                    lemma_replace_channel(pre, *self, i as int, gname, gvalues);
                }
                return Ok(());
            }
            i += 1;
        }
        self.attributes.push(VertexAttribute { name, values });
        proof {
            lemma_append_channel(pre, *self, gname, gvalues);
        }
        Ok(())
    }

    /// The values bound under `name`, or nothing when no such channel exists.
    pub fn attribute(&self, name: &String) -> (r: Option<&Vec<Rgb>>)
        requires
            self.wf(),
        ensures
            r is Some <==> self.has_attribute(name@),
            r is Some ==> r->0@ == self.attribute_values(name@),
    {
        let count = self.attributes.len();
        let mut i: usize = 0;
        while i < count
            invariant
                count == self.attributes@.len(),
                0 <= i <= count,
                forall|k: int| 0 <= k < i ==> self.attributes()[k].name@ != name@,
                self.wf(),
            decreases count - i,
        {
            if self.attributes[i].name == *name {
                proof {
                    lemma_attribute_index_of_witness(self, name@, i as int);
                }
                return Some(&self.attributes[i].values);
            }
            i += 1;
        }
        None
    }
}

/// With unique channel names, the index a lookup chooses is the one witness
/// where the name is bound.
proof fn lemma_attribute_index_of_witness(m: &Mesh, n: Seq<char>, i: int)
    requires
        m.names_unique(),
        0 <= i < m.attributes().len(),
        m.attributes()[i].name@ == n,
    ensures
        m.has_attribute(n),
        m.attribute_index(n) == i,
{
    assert(m.has_attribute(n));
    let w = m.attribute_index(n);
    assert(0 <= w < m.attributes().len() && m.attributes()[w].name@ == n);
    if w < i {
        assert(m.attributes()[w].name@ != m.attributes()[i].name@);
    }
    if i < w {
        assert(m.attributes()[i].name@ != m.attributes()[w].name@);
    }
}

/// Replacing the channel at `at` — whose name was already `n` — with fresh
/// values changes that channel alone: the mesh stays well formed, `n` reads
/// back the new values, and every other name reads back as before.
proof fn lemma_replace_channel(pre: Mesh, post: Mesh, at: int, n: Seq<char>, vals: Seq<Rgb>)
    requires
        pre.wf(),
        0 <= at < pre.attributes().len(),
        pre.attributes()[at].name@ == n,
        post.positions() == pre.positions(),
        vals.len() == pre.positions().len(),
        post.attributes().len() == pre.attributes().len(),
        post.attributes()[at].name@ == n,
        post.attributes()[at].values@ == vals,
        forall|k: int|
            0 <= k < pre.attributes().len() && k != at
                ==> post.attributes()[k] == pre.attributes()[k],
    ensures
        post.wf(),
        post.has_attribute(n),
        post.attribute_values(n) == vals,
        forall|m: Seq<char>| m != n ==> post.has_attribute(m) == pre.has_attribute(m),
        forall|m: Seq<char>|
            m != n && pre.has_attribute(m) ==> post.attribute_values(m) == pre.attribute_values(m),
{
    assert forall|k: int| 0 <= k < post.attributes().len() implies
        #[trigger] post.attributes()[k].name@ == pre.attributes()[k].name@ by {
        if k != at {
            assert(post.attributes()[k] == pre.attributes()[k]);
        }
    }
    assert(post.names_unique());
    assert forall|k: int| 0 <= k < post.attributes().len() implies
        (#[trigger] post.attributes()[k].values@).len() == post.positions().len() by {
        if k != at {
            assert(pre.attributes()[k].values@.len() == pre.positions().len());
        }
    }
    lemma_attribute_index_of_witness(&post, n, at);
    assert forall|m: Seq<char>| m != n implies
        post.has_attribute(m) == pre.has_attribute(m) by {
        if pre.has_attribute(m) {
            let w = pre.attribute_index(m);
            lemma_attribute_index_of_witness(&pre, m, w);
            assert(w != at);
            assert(post.attributes()[w].name@ == m);
        }
        if post.has_attribute(m) {
            let w = post.attribute_index(m);
            lemma_attribute_index_of_witness(&post, m, w);
            assert(w != at);
            assert(pre.attributes()[w].name@ == m);
        }
    }
    assert forall|m: Seq<char>| m != n && pre.has_attribute(m) implies
        post.attribute_values(m) == pre.attribute_values(m) by {
        let w = pre.attribute_index(m);
        lemma_attribute_index_of_witness(&pre, m, w);
        assert(w != at);
        assert(post.attributes()[w].name@ == m);
        lemma_attribute_index_of_witness(&post, m, w);
    }
}

/// Appending a channel under a name not yet bound leaves every channel
/// already bound readable exactly as before, and binds the new name to the
/// new values.
proof fn lemma_append_channel(pre: Mesh, post: Mesh, n: Seq<char>, vals: Seq<Rgb>)
    requires
        pre.wf(),
        !pre.has_attribute(n),
        post.positions() == pre.positions(),
        vals.len() == pre.positions().len(),
        post.attributes().len() == pre.attributes().len() + 1,
        post.attributes().last().name@ == n,
        post.attributes().last().values@ == vals,
        forall|k: int|
            0 <= k < pre.attributes().len() ==> post.attributes()[k] == pre.attributes()[k],
    ensures
        post.wf(),
        post.has_attribute(n),
        post.attribute_values(n) == vals,
        forall|m: Seq<char>| m != n ==> post.has_attribute(m) == pre.has_attribute(m),
        forall|m: Seq<char>|
            m != n && pre.has_attribute(m) ==> post.attribute_values(m) == pre.attribute_values(m),
{
    let at = pre.attributes().len() as int;
    assert forall|i: int, j: int| 0 <= i < j < post.attributes().len() implies
        post.attributes()[i].name@ != post.attributes()[j].name@ by {
        if j < at {
            assert(pre.attributes()[i].name@ != pre.attributes()[j].name@);
        } else {
            assert(post.attributes()[j].name@ == n);
            if post.attributes()[i].name@ == n {
                assert(pre.attributes()[i].name@ == n);
                assert(pre.has_attribute(n));
            }
        }
    }
    assert forall|k: int| 0 <= k < post.attributes().len() implies
        (#[trigger] post.attributes()[k].values@).len() == post.positions().len() by {
        if k < at {
            assert(pre.attributes()[k].values@.len() == pre.positions().len());
        }
    }
    lemma_attribute_index_of_witness(&post, n, at);
    assert forall|m: Seq<char>| m != n implies
        post.has_attribute(m) == pre.has_attribute(m) by {
        if pre.has_attribute(m) {
            let w = pre.attribute_index(m);
            lemma_attribute_index_of_witness(&pre, m, w);
            assert(post.attributes()[w].name@ == m);
        }
        if post.has_attribute(m) {
            let w = post.attribute_index(m);
            lemma_attribute_index_of_witness(&post, m, w);
            assert(w != at);
            assert(pre.attributes()[w].name@ == m);
        }
    }
    assert forall|m: Seq<char>| m != n && pre.has_attribute(m) implies
        post.attribute_values(m) == pre.attribute_values(m) by {
        let w = pre.attribute_index(m);
        lemma_attribute_index_of_witness(&pre, m, w);
        assert(post.attributes()[w].name@ == m);
        lemma_attribute_index_of_witness(&post, m, w);
    }
}

} // verus!
