//! Pipeline descriptors and their registry, and the routine that compiles a
//! pair of shader sources into a registered pipeline.
//!
//! A descriptor references its shader stages and is immutable once created;
//! many renderable objects may then reference it through its handle.

use vstd::prelude::*;
use crate::shader::{Shader, ShaderRegistry, ShaderStages, ShaderStageKind};

verus! {

/// The fixed-function configuration of a pipeline together with the shader
/// stages it draws with. Created once via [`PipelineDescriptor::default_config`]
/// and never changed afterwards.
#[derive(PartialEq, Eq, Structural, Clone, Copy, Debug)]
pub struct PipelineDescriptor {
    pub stages: ShaderStages,
}

impl PipelineDescriptor {
    /// A descriptor over the given stages with the default fixed-function
    /// state (blending, depth test, topology).
    pub fn default_config(stages: ShaderStages) -> (d: PipelineDescriptor)
        ensures
            d == (PipelineDescriptor { stages }),
    {
        PipelineDescriptor { stages }
    }
}

/// A handle to a pipeline stored in a [`PipelineRegistry`].
#[derive(PartialEq, Eq, Structural, Clone, Copy, Debug)]
pub struct PipelineHandle {
    pub id: usize,
}

/// Append-only storage for pipeline descriptors.
pub struct PipelineRegistry {
    pipelines: Vec<PipelineDescriptor>,
}

impl PipelineRegistry {
    /// The descriptors held, in insertion order.
    pub closed spec fn view(&self) -> Seq<PipelineDescriptor> {
        self.pipelines@
    }

    /// A handle is usable when it indexes a stored descriptor.
    pub open spec fn valid_handle(&self, h: PipelineHandle) -> bool {
        h.id < self@.len()
    }

    /// An empty registry.
    pub fn new() -> (reg: PipelineRegistry)
        ensures
            reg@ == Seq::<PipelineDescriptor>::empty(),
    {
        PipelineRegistry { pipelines: Vec::new() }
    }

    /// How many pipelines are stored.
    pub fn len(&self) -> (n: usize)
        ensures
            n == self@.len(),
    {
        self.pipelines.len()
    }

    /// Stores a descriptor and hands back a fresh, usable handle to it.
    /// Pipelines already stored keep their handles and are not changed.
    pub fn add(&mut self, descriptor: PipelineDescriptor) -> (h: PipelineHandle)
        ensures
            final(self)@ == old(self)@.push(descriptor),
            h.id == old(self)@.len(),
            final(self).valid_handle(h),
            forall|other: PipelineHandle|
                old(self).valid_handle(other) ==> final(self)@[other.id as int] == old(self)@[other.id as int],
    {
        let id = self.pipelines.len();
        self.pipelines.push(descriptor);
        PipelineHandle { id }
    }

    /// Looks a descriptor up by its handle.
    pub fn get(&self, h: PipelineHandle) -> (d: &PipelineDescriptor)
        requires
            self.valid_handle(h),
        ensures
            *d == self@[h.id as int],
    {
        &self.pipelines[h.id]
    }
}

/// Compiles a (vertex-text, fragment-text) pair into a registered pipeline.
///
/// The vertex and fragment sources are stored as two new shaders and a
/// descriptor over them is stored as a new pipeline. The returned handle is
/// usable at once, and no shader or pipeline registered earlier is changed:
/// both registries grow at their ends only.
pub fn compile_pipeline(
    shaders: &mut ShaderRegistry,
    pipelines: &mut PipelineRegistry,
    vertex_source: String,
    fragment_source: String,
) -> (h: PipelineHandle)
    ensures
        final(pipelines).valid_handle(h),
        h.id == old(pipelines)@.len(),
        final(shaders)@ == old(shaders)@
            .push(Shader { stage: ShaderStageKind::Vertex, source: vertex_source })
            .push(Shader { stage: ShaderStageKind::Fragment, source: fragment_source }),
        final(pipelines)@.len() == old(pipelines)@.len() + 1,
        forall|k: int|
            0 <= k < old(pipelines)@.len() ==> final(pipelines)@[k] == old(pipelines)@[k],
        final(pipelines)@[h.id as int].stages.vertex.id == old(shaders)@.len(),
        final(pipelines)@[h.id as int].stages.fragment matches Some(f) && f.id == old(
            shaders,
        )@.len() + 1,
        final(pipelines)@[h.id as int].stages.valid_in(final(shaders)),
{
    let vertex = shaders.add(Shader { stage: ShaderStageKind::Vertex, source: vertex_source });
    let fragment = shaders.add(Shader { stage: ShaderStageKind::Fragment, source: fragment_source });
    let stages = ShaderStages { vertex, fragment: Some(fragment) };
    pipelines.add(PipelineDescriptor::default_config(stages))
}

} // verus!
