//! Registries that own the scene's shared assets.
//!
//! Objects never hold an asset directly: they hold a handle into a registry,
//! so one asset mutated through its handle is seen by every object that
//! references it. Registries are append-only; a handle, once handed out,
//! stays valid and keeps naming the same slot.

use vstd::prelude::*;
use crate::color::Rgb;
use crate::mesh::{Mesh, MeshError};

verus! {

/// A handle to a material stored in a [`MaterialRegistry`].
#[derive(PartialEq, Eq, Structural, Clone, Copy, Debug)]
pub struct MaterialHandle {
    pub id: usize,
}

/// Append-only storage for per-instance material input blocks; each block is
/// a single color here.
pub struct MaterialRegistry {
    colors: Vec<Rgb>,
}

impl MaterialRegistry {
    /// The material colors held, in insertion order.
    pub closed spec fn view(&self) -> Seq<Rgb> {
        self.colors@
    }

    /// A handle is usable when it indexes a stored material.
    pub open spec fn valid_handle(&self, h: MaterialHandle) -> bool {
        h.id < self@.len()
    }

    /// An empty registry.
    pub fn new() -> (reg: MaterialRegistry)
        ensures
            reg@ == Seq::<Rgb>::empty(),
    {
        MaterialRegistry { colors: Vec::new() }
    }

    /// How many materials are stored.
    pub fn len(&self) -> (n: usize)
        ensures
            n == self@.len(),
    {
        self.colors.len()
    }

    /// Stores a material and hands back a fresh handle to it. Materials
    /// already stored keep their handles and are not changed.
    pub fn add(&mut self, color: Rgb) -> (h: MaterialHandle)
        ensures
            final(self)@ == old(self)@.push(color),
            h.id == old(self)@.len(),
            final(self).valid_handle(h),
    {
        let id = self.colors.len();
        self.colors.push(color);
        MaterialHandle { id }
    }

    /// Reads the material behind a handle.
    pub fn get(&self, h: MaterialHandle) -> (color: Rgb)
        requires
            self.valid_handle(h),
        ensures
            color == self@[h.id as int],
    {
        self.colors[h.id]
    }

    /// Overwrites the material behind a handle. Every object sharing the
    /// handle sees the new color; other materials are untouched.
    pub fn set(&mut self, h: MaterialHandle, color: Rgb)
        requires
            old(self).valid_handle(h),
        ensures
            final(self)@ == old(self)@.update(h.id as int, color),
    {
        self.colors[h.id] = color;
    }
}

/// A handle to a mesh stored in a [`MeshRegistry`].
#[derive(PartialEq, Eq, Structural, Clone, Copy, Debug)]
pub struct MeshHandle {
    pub id: usize,
}

/// Append-only storage for meshes. Renderable objects share a mesh by
/// holding the same handle, not a copy of the geometry.
pub struct MeshRegistry {
    meshes: Vec<Mesh>,
}

impl MeshRegistry {
    /// The meshes held, in insertion order.
    pub closed spec fn view(&self) -> Seq<Mesh> {
        self.meshes@
    }

    /// A handle is usable when it indexes a stored mesh.
    pub open spec fn valid_handle(&self, h: MeshHandle) -> bool {
        h.id < self@.len()
    }

    /// Every stored mesh is well formed.
    pub open spec fn wf(&self) -> bool {
        forall|i: int| 0 <= i < self@.len() ==> (#[trigger] self@[i]).wf()
    }

    /// An empty registry.
    pub fn new() -> (reg: MeshRegistry)
        ensures
            reg@ == Seq::<Mesh>::empty(),
            reg.wf(),
    {
        MeshRegistry { meshes: Vec::new() }
    }

    /// How many meshes are stored.
    pub fn len(&self) -> (n: usize)
        ensures
            n == self@.len(),
    {
        self.meshes.len()
    }

    /// Stores a mesh and hands back a fresh handle to it. Meshes already
    /// stored keep their handles and are not changed.
    pub fn add(&mut self, mesh: Mesh) -> (h: MeshHandle)
        requires
            mesh.wf(),
            old(self).wf(),
        ensures
            final(self)@ == old(self)@.push(mesh),
            h.id == old(self)@.len(),
            final(self).valid_handle(h),
            final(self).wf(),
    {
        let id = self.meshes.len();
        self.meshes.push(mesh);
        MeshHandle { id }
    }

    /// Reads the mesh behind a handle.
    pub fn get(&self, h: MeshHandle) -> (mesh: &Mesh)
        requires
            self.valid_handle(h),
        ensures
            *mesh == self@[h.id as int],
    {
        &self.meshes[h.id]
    }

    /// Binds a per-vertex attribute on the mesh behind `h`, as
    /// [`Mesh::set_attribute`] does. The change is visible through every copy
    /// of the handle; no other mesh is touched.
    pub fn set_attribute(&mut self, h: MeshHandle, name: String, values: Vec<Rgb>) -> (r: Result<
        (),
        MeshError,
    >)
        requires
            old(self).valid_handle(h),
            old(self).wf(),
        ensures
            final(self).wf(),
            final(self)@.len() == old(self)@.len(),
            forall|k: int|
                0 <= k < old(self)@.len() && k != h.id ==> final(self)@[k] == old(self)@[k],
            r is Ok <==> values@.len() == old(self)@[h.id as int].positions().len(),
            r is Err ==> r == Err::<(), MeshError>(MeshError::AttributeLengthMismatch)
                && final(self)@ == old(self)@,
            final(self)@[h.id as int].positions() == old(self)@[h.id as int].positions(),
            r is Ok ==> final(self)@[h.id as int].has_attribute(name@)
                && final(self)@[h.id as int].attribute_values(name@) == values@,
            r is Ok ==> forall|n: Seq<char>|
                n != name@ ==> final(self)@[h.id as int].has_attribute(n) == old(self)@[h.id
                    as int].has_attribute(n),
            r is Ok ==> forall|n: Seq<char>|
                n != name@ && old(self)@[h.id as int].has_attribute(n) ==> final(self)@[h.id
                    as int].attribute_values(n) == old(self)@[h.id as int].attribute_values(n),
    {
        let mesh = &mut self.meshes[h.id];
        let r = mesh.set_attribute(name, values);
        proof {
            if r is Err {
                assert(self.meshes@ =~= old(self).meshes@);
            }
        }
        r
    }
}

} // verus!
