//! The scene: registries of shared assets, the render graph, the renderable
//! objects, and how a draw resolves its color data.
//!
//! Two independent channels ship color data to a draw call. A per-material
//! input block is owned one-to-one by the objects that reference its handle
//! and yields one uniform color for the whole draw. A per-vertex attribute
//! rides on the mesh, shared many-to-one through the mesh handle, and yields
//! one color per vertex. Which channel a draw reads is fixed by the object's
//! pipeline input, so the channels never interact.

use vstd::prelude::*;
use crate::assets::{MaterialHandle, MaterialRegistry, MeshHandle, MeshRegistry};
use crate::color::{Position, Rgb, Size2};
use crate::graph::RenderGraph;
use crate::pipeline::{PipelineHandle, PipelineRegistry};
use crate::shader::ShaderRegistry;

verus! {

/// Where a custom pipeline reads its color data.
pub enum PipelineInput {
    /// From the per-instance material block behind this handle.
    Material { material: MaterialHandle },
    /// From the mesh's per-vertex attribute channel of this name.
    VertexAttribute { name: String },
}

/// One object the host will draw.
pub enum Renderable {
    /// A quad drawn with the built-in color material.
    Sprite { material: MaterialHandle, size: Size2, transform: Position },
    /// A mesh drawn through a custom pipeline.
    MeshObject {
        mesh: MeshHandle,
        pipeline: PipelineHandle,
        input: PipelineInput,
        transform: Position,
    },
}

/// An orthographic camera; the scale is a single-precision bit pattern.
#[derive(PartialEq, Eq, Structural, Clone, Copy, Debug)]
pub struct Camera {
    pub scale: u32,
}

/// Everything the initializer hands to the host: assets, graph wiring,
/// renderable objects and cameras.
pub struct Scene {
    pub shaders: ShaderRegistry,
    pub pipelines: PipelineRegistry,
    pub color_materials: MaterialRegistry,
    pub custom_materials: MaterialRegistry,
    pub meshes: MeshRegistry,
    pub render_graph: RenderGraph,
    pub renderables: Vec<Renderable>,
    pub cameras: Vec<Camera>,
}

impl Scene {
    /// The scene's internal consistency: the graph is well formed and every
    /// stored mesh is.
    pub open spec fn wf(&self) -> bool {
        &&& self.render_graph.wf()
        &&& self.meshes.wf()
    }

    /// A scene around a host-provided render graph, with nothing stored yet.
    pub fn new(render_graph: RenderGraph) -> (s: Scene)
        requires
            render_graph.wf(),
        ensures
            s.render_graph == render_graph,
            s.shaders@.len() == 0,
            s.pipelines@.len() == 0,
            s.color_materials@.len() == 0,
            s.custom_materials@.len() == 0,
            s.meshes@.len() == 0,
            s.renderables@.len() == 0,
            s.cameras@.len() == 0,
            s.wf(),
    {
        Scene {
            shaders: ShaderRegistry::new(),
            pipelines: PipelineRegistry::new(),
            color_materials: MaterialRegistry::new(),
            custom_materials: MaterialRegistry::new(),
            meshes: MeshRegistry::new(),
            render_graph,
            renderables: Vec::new(),
            cameras: Vec::new(),
        }
    }
}

/// The color data one draw of a renderable consumes, in the model: either
/// one uniform color for the whole draw or one color per vertex.
pub enum ResolvedColorsModel {
    Uniform(Rgb),
    PerVertex(Seq<Rgb>),
}

/// The color data one draw of a renderable consumes.
#[derive(Debug, PartialEq, Eq)]
pub enum ResolvedColors {
    Uniform(Rgb),
    PerVertex(Vec<Rgb>),
}

impl ResolvedColors {
    /// The model this value denotes.
    pub open spec fn model(&self) -> ResolvedColorsModel {
        match self {
            ResolvedColors::Uniform(c) => ResolvedColorsModel::Uniform(*c),
            ResolvedColors::PerVertex(v) => ResolvedColorsModel::PerVertex(v@),
        }
    }
}

/// What color data a draw of `r` consumes in `scene`, or nothing when a
/// handle dangles or the named attribute channel is missing.
///
/// A sprite and a material-driven object read their material block alone;
/// a vertex-driven object reads its mesh's attribute channel alone. The two
/// paths each ignore the other's data by construction.
pub open spec fn spec_resolved_colors(scene: &Scene, r: Renderable) -> Option<ResolvedColorsModel> {
    match r {
        Renderable::Sprite { material, .. } => if scene.color_materials.valid_handle(material) {
            Some(ResolvedColorsModel::Uniform(scene.color_materials@[material.id as int]))
        } else {
            None
        },
        Renderable::MeshObject { mesh, input, .. } => match input {
            PipelineInput::Material { material } => if scene.custom_materials.valid_handle(
                material,
            ) {
                Some(ResolvedColorsModel::Uniform(scene.custom_materials@[material.id as int]))
            } else {
                None
            },
            PipelineInput::VertexAttribute { name } => if scene.meshes.valid_handle(mesh)
                && scene.meshes@[mesh.id as int].has_attribute(name@) {
                Some(
                    ResolvedColorsModel::PerVertex(
                        scene.meshes@[mesh.id as int].attribute_values(name@),
                    ),
                )
            } else {
                None
            },
        },
    }
}

/// Resolves the color data a draw of `r` would consume in `scene`.
pub fn resolved_colors(scene: &Scene, r: &Renderable) -> (res: Option<ResolvedColors>)
    requires
        scene.wf(),
    ensures
        res is Some <==> spec_resolved_colors(scene, *r) is Some,
        res is Some ==> spec_resolved_colors(scene, *r) == Some(res->0.model()),
{
    match r {
        Renderable::Sprite { material, .. } => {
            if material.id < scene.color_materials.len() {
                Some(ResolvedColors::Uniform(scene.color_materials.get(*material)))
            } else {
                None
            }
        },
        Renderable::MeshObject { mesh, input, .. } => match input {
            PipelineInput::Material { material } => {
                if material.id < scene.custom_materials.len() {
                    Some(ResolvedColors::Uniform(scene.custom_materials.get(*material)))
                } else {
                    None
                }
            },
            PipelineInput::VertexAttribute { name } => {
                if mesh.id < scene.meshes.len() {
                    match scene.meshes.get(*mesh).attribute(name) {
                        Some(values) => Some(ResolvedColors::PerVertex(values.clone())),
                        None => None,
                    }
                } else {
                    None
                }
            },
        },
    }
}

/// The per-material input path is independent of every mesh: two scenes that
/// agree on their custom material blocks resolve a material-driven object to
/// the same colors, whatever their meshes (and anything else) hold.
pub proof fn lemma_material_path_ignores_meshes(s1: &Scene, s2: &Scene, r: Renderable)
    requires
        r matches Renderable::MeshObject { input: PipelineInput::Material { .. }, .. },
        s1.custom_materials@ == s2.custom_materials@,
    ensures
        spec_resolved_colors(s1, r) == spec_resolved_colors(s2, r),
{
}

/// The per-vertex input path is independent of every material block: two
/// scenes that agree on their meshes resolve a vertex-driven object to the
/// same colors, whatever their material registries hold.
pub proof fn lemma_vertex_path_ignores_materials(s1: &Scene, s2: &Scene, r: Renderable)
    requires
        r matches Renderable::MeshObject { input: PipelineInput::VertexAttribute { .. }, .. },
        s1.meshes@ == s2.meshes@,
    ensures
        spec_resolved_colors(s1, r) == spec_resolved_colors(s2, r),
{
}

/// Mesh data is shared, not copied: two vertex-driven objects holding the
/// same mesh handle and naming the same attribute channel resolve to the
/// same colors — so mutating that channel affects both identically.
pub proof fn lemma_shared_mesh_resolves_identically(
    s: &Scene,
    r1: Renderable,
    r2: Renderable,
    mesh: MeshHandle,
    name: Seq<char>,
)
    requires
        r1 matches Renderable::MeshObject { mesh: m1, input: PipelineInput::VertexAttribute { name: n1 }, .. }
            && m1 == mesh && n1@ == name,
        r2 matches Renderable::MeshObject { mesh: m2, input: PipelineInput::VertexAttribute { name: n2 }, .. }
            && m2 == mesh && n2@ == name,
    ensures
        spec_resolved_colors(s, r1) == spec_resolved_colors(s, r2),
{
}

} // verus!
