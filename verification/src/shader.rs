//! Shader programs and the registry that stores them.
//!
//! A shader is one stage's source text. A pipeline later references a vertex
//! stage (required) and optionally a fragment stage through handles into the
//! registry; a handle is an index that stays valid because the registry only
//! ever grows.

use vstd::prelude::*;

verus! {

/// Which programmable stage a shader's source text feeds.
#[derive(PartialEq, Eq, Structural, Clone, Copy, Debug)]
pub enum ShaderStageKind {
    Vertex,
    Fragment,
}

/// One stage's source text.
pub struct Shader {
    pub stage: ShaderStageKind,
    pub source: String,
}

/// A handle to a shader stored in a [`ShaderRegistry`].
#[derive(PartialEq, Eq, Structural, Clone, Copy, Debug)]
pub struct ShaderHandle {
    pub id: usize,
}

/// Append-only storage for compiled shader stages.
pub struct ShaderRegistry {
    shaders: Vec<Shader>,
}

impl ShaderRegistry {
    /// The shaders held, in insertion order.
    pub closed spec fn view(&self) -> Seq<Shader> {
        self.shaders@
    }

    /// A handle is usable when it indexes a stored shader.
    pub open spec fn valid_handle(&self, h: ShaderHandle) -> bool {
        h.id < self@.len()
    }

    /// An empty registry.
    pub fn new() -> (reg: ShaderRegistry)
        ensures
            reg@ == Seq::<Shader>::empty(),
    {
        ShaderRegistry { shaders: Vec::new() }
    }

    /// How many shaders are stored.
    pub fn len(&self) -> (n: usize)
        ensures
            n == self@.len(),
    {
        self.shaders.len()
    }

    /// Stores a shader and hands back a fresh handle to it. Shaders already
    /// stored keep their handles and are not changed.
    pub fn add(&mut self, shader: Shader) -> (h: ShaderHandle)
        ensures
            final(self)@ == old(self)@.push(shader),
            h.id == old(self)@.len(),
            final(self).valid_handle(h),
    {
        let id = self.shaders.len();
        self.shaders.push(shader);
        ShaderHandle { id }
    }

    /// Looks a shader up by its handle.
    pub fn get(&self, h: ShaderHandle) -> (shader: &Shader)
        requires
            self.valid_handle(h),
        ensures
            *shader == self@[h.id as int],
    {
        &self.shaders[h.id]
    }
}

/// The stages a pipeline draws with: a vertex stage is required, a fragment
/// stage is optional (a pipeline without one performs no color output).
#[derive(PartialEq, Eq, Structural, Clone, Copy, Debug)]
pub struct ShaderStages {
    pub vertex: ShaderHandle,
    pub fragment: Option<ShaderHandle>,
}

impl ShaderStages {
    /// Both handles point into the given registry.
    pub open spec fn valid_in(&self, reg: &ShaderRegistry) -> bool {
        &&& reg.valid_handle(self.vertex)
        &&& self.fragment is Some ==> reg.valid_handle(self.fragment->0)
    }
}

} // verus!
