//! The one-shot scene initializer.
//!
//! Run once before the host's main loop: it compiles the two custom shader
//! pipelines, registers the per-material input node into the render graph
//! ahead of the main pass, builds the shared quad mesh with its per-vertex
//! color channel, and records the three renderable objects and the camera.
//! Both failure conditions are configuration errors caught before anything
//! is mutated, so a failed run leaves the scene exactly as it was; the
//! caller treats either as fatal.

use vstd::prelude::*;
use crate::color::{Position, Rgb, Size2};
use crate::graph::GraphError;
use crate::mesh::Mesh;
use crate::pipeline::compile_pipeline;
use crate::scene::{
    spec_resolved_colors, Camera, PipelineInput, Renderable, ResolvedColorsModel, Scene,
};
use crate::shader::{Shader, ShaderStageKind};

verus! {

/// The name under which the per-material input block feeds the render graph.
pub fn custom_material_node_name() -> (s: String)
    ensures
        s@ == "custom_material"@,
{
    String::from_str("custom_material")
}

/// The mesh attribute channel the per-vertex color pipeline reads.
pub fn vertex_color_attribute_name() -> (s: String)
    ensures
        s@ == "Vertex_Color"@,
{
    String::from_str("Vertex_Color")
}

/// Why scene initialization was refused. Both are startup configuration
/// faults; the host has no degraded mode for either.
#[derive(PartialEq, Eq, Structural, Clone, Copy, Debug)]
pub enum SetupError {
    /// The render graph already has a node named `custom_material`.
    NodeNameTaken,
    /// The render graph has no main-pass node under the configured name.
    MissingMainPass,
}

/// Everything the initializer consumes: the four embedded shader source
/// texts, the demonstration color, the quad geometry and placements (all
/// scalar components as single-precision bit patterns), and the name of the
/// host's main color pass.
pub struct SceneConfig {
    pub material_color_vertex_source: String,
    pub material_color_fragment_source: String,
    pub vertex_color_vertex_source: String,
    pub vertex_color_fragment_source: String,
    pub color: Rgb,
    pub quad_positions: Vec<Position>,
    pub sprite_size: Size2,
    pub sprite_transform: Position,
    pub material_quad_transform: Position,
    pub vertex_quad_transform: Position,
    pub camera_scale: u32,
    pub main_pass_node: String,
}

/// One copy of `color` per vertex, mirroring how the demonstration fills the
/// quad's color channel.
fn uniform_colors(color: Rgb, n: usize) -> (v: Vec<Rgb>)
    ensures
        v@ == Seq::new(n as nat, |i: int| color),
{
    let mut v: Vec<Rgb> = Vec::new();
    let mut i: usize = 0;
    while i < n
        invariant
            0 <= i <= n,
            v@.len() == i,
            forall|k: int| 0 <= k < i ==> v@[k] == color,
        decreases n - i,
    {
        v.push(color);
        i += 1;
    }
    proof {
        assert(v@ =~= Seq::new(n as nat, |i: int| color));
    }
    v
}

/// Initializes the scene, or reports why it cannot be.
///
/// Fails — mutating nothing — exactly when the graph already has a
/// `custom_material` node (checked first) or has no node under the
/// configured main-pass name. On success the scene gains, and loses nothing
/// else:
///
/// * four shaders: the material-color pair then the vertex-color pair;
/// * two pipelines over them, the material-color one first;
/// * the `custom_material` graph node, ordered ahead of the main pass;
/// * one color material and one custom material block, both `config.color`;
/// * one quad mesh whose `Vertex_Color` channel repeats `config.color`
///   across all vertices;
/// * three renderables — the built-in-material sprite, the material-driven
///   quad, the vertex-color-driven quad, the two quads sharing one mesh
///   handle — and one camera.
pub fn setup(scene: &mut Scene, config: SceneConfig) -> (r: Result<(), SetupError>)
    requires
        old(scene).wf(),
    ensures
        final(scene).wf(),
        r is Err ==> *final(scene) == *old(scene),
        r == Err::<(), SetupError>(SetupError::NodeNameTaken)
            <==> old(scene).render_graph.has_node("custom_material"@),
        r == Err::<(), SetupError>(SetupError::MissingMainPass)
            <==> !old(scene).render_graph.has_node("custom_material"@)
                && !old(scene).render_graph.has_node(config.main_pass_node@),
        r is Ok ==> final(scene).shaders@ == old(scene).shaders@
            .push(Shader { stage: ShaderStageKind::Vertex, source: config.material_color_vertex_source })
            .push(Shader { stage: ShaderStageKind::Fragment, source: config.material_color_fragment_source })
            .push(Shader { stage: ShaderStageKind::Vertex, source: config.vertex_color_vertex_source })
            .push(Shader { stage: ShaderStageKind::Fragment, source: config.vertex_color_fragment_source }),
        r is Ok ==> final(scene).pipelines@.len() == old(scene).pipelines@.len() + 2
            && (forall|k: int|
                0 <= k < old(scene).pipelines@.len()
                    ==> final(scene).pipelines@[k] == old(scene).pipelines@[k]),
        r is Ok ==> ({
            let s0 = old(scene).shaders@.len() as int;
            let p0 = old(scene).pipelines@.len() as int;
            &&& final(scene).pipelines@[p0].stages.vertex.id == s0
            &&& final(scene).pipelines@[p0].stages.fragment
                matches Some(f) && f.id == s0 + 1
            &&& final(scene).pipelines@[p0 + 1].stages.vertex.id == s0 + 2
            &&& final(scene).pipelines@[p0 + 1].stages.fragment
                matches Some(f) && f.id == s0 + 3
        }),
        r is Ok ==> final(scene).render_graph.nodes() == old(scene).render_graph.nodes().push(
            "custom_material"@,
        ),
        r is Ok ==> final(scene).render_graph.edges() == old(scene).render_graph.edges().push(
            ("custom_material"@, config.main_pass_node@),
        ),
        r is Ok ==> final(scene).color_materials@ == old(scene).color_materials@.push(config.color),
        r is Ok ==> final(scene).custom_materials@ == old(scene).custom_materials@.push(
            config.color,
        ),
        r is Ok ==> final(scene).meshes@.len() == old(scene).meshes@.len() + 1
            && (forall|k: int|
                0 <= k < old(scene).meshes@.len()
                    ==> final(scene).meshes@[k] == old(scene).meshes@[k]),
        r is Ok ==> ({
            let quad = final(scene).meshes@[old(scene).meshes@.len() as int];
            &&& quad.positions() == config.quad_positions@
            &&& quad.has_attribute("Vertex_Color"@)
            &&& quad.attribute_values("Vertex_Color"@) == Seq::new(
                config.quad_positions@.len(),
                |i: int| config.color,
            )
        }),
        r is Ok ==> final(scene).renderables@.len() == old(scene).renderables@.len() + 3
            && (forall|k: int|
                0 <= k < old(scene).renderables@.len()
                    ==> final(scene).renderables@[k] == old(scene).renderables@[k]),
        r is Ok ==> ({
            let n0 = old(scene).renderables@.len() as int;
            let p0 = old(scene).pipelines@.len();
            let m0 = old(scene).meshes@.len();
            &&& final(scene).renderables@[n0] matches Renderable::Sprite { material, size, transform }
                && material.id == old(scene).color_materials@.len()
                && size == config.sprite_size
                && transform == config.sprite_transform
            &&& final(scene).renderables@[n0 + 1] matches Renderable::MeshObject {
                mesh,
                pipeline,
                input: PipelineInput::Material { material },
                transform,
            } && mesh.id == m0
                && pipeline.id == p0
                && material.id == old(scene).custom_materials@.len()
                && transform == config.material_quad_transform
            &&& final(scene).renderables@[n0 + 2] matches Renderable::MeshObject {
                mesh,
                pipeline,
                input: PipelineInput::VertexAttribute { name },
                transform,
            } && mesh.id == m0
                && pipeline.id == p0 + 1
                && name@ == "Vertex_Color"@
                && transform == config.vertex_quad_transform
        }),
        r is Ok ==> final(scene).cameras@ == old(scene).cameras@.push(
            Camera { scale: config.camera_scale },
        ),
        // Each new object draws `config.color`, each through its own channel:
        // the sprite and the material-driven quad as one uniform color, the
        // vertex-driven quad as one color per vertex.
        r is Ok ==> ({
            let n0 = old(scene).renderables@.len() as int;
            &&& spec_resolved_colors(final(scene), final(scene).renderables@[n0]) == Some(
                ResolvedColorsModel::Uniform(config.color),
            )
            &&& spec_resolved_colors(final(scene), final(scene).renderables@[n0 + 1]) == Some(
                ResolvedColorsModel::Uniform(config.color),
            )
            &&& spec_resolved_colors(final(scene), final(scene).renderables@[n0 + 2]) == Some(
                ResolvedColorsModel::PerVertex(
                    Seq::new(config.quad_positions@.len(), |i: int| config.color),
                ),
            )
        }),
{
    let node_name = custom_material_node_name();
    if scene.render_graph.contains_node(&node_name) {
        return Err(SetupError::NodeNameTaken);
    }
    if !scene.render_graph.contains_node(&config.main_pass_node) {
        return Err(SetupError::MissingMainPass);
    }

    // Pipeline A: per-material color.
    let mat_color_pipeline = compile_pipeline(
        &mut scene.shaders,
        &mut scene.pipelines,
        config.material_color_vertex_source,
        config.material_color_fragment_source,
    );

    // Feed pipeline A's material blocks through the graph, ahead of the main
    // pass; both registrations were validated above.
    let registered: Result<(), GraphError> = scene.render_graph.add_system_node(node_name);
    assert(registered is Ok);
    proof {
        let nodes = scene.render_graph.nodes();
        let old_nodes = old(scene).render_graph.nodes();
        assert(nodes == old_nodes.push("custom_material"@));
        assert(nodes[old_nodes.len() as int] == "custom_material"@);
        assert(scene.render_graph.has_node("custom_material"@));
        let w = choose|i: int|
            0 <= i < old_nodes.len() && old_nodes[i] == config.main_pass_node@;
        assert(nodes[w] == config.main_pass_node@);
        assert(scene.render_graph.has_node(config.main_pass_node@));
    }
    let wired: Result<(), GraphError> = scene.render_graph.add_node_edge(
        custom_material_node_name(),
        config.main_pass_node,
    );
    assert(wired is Ok);

    // Pipeline B: per-vertex color.
    let vert_color_pipeline = compile_pipeline(
        &mut scene.shaders,
        &mut scene.pipelines,
        config.vertex_color_vertex_source,
        config.vertex_color_fragment_source,
    );

    let color_material = scene.color_materials.add(config.color);
    let custom_material = scene.custom_materials.add(config.color);

    // The shared quad, with its vertex colors; they are consumed only by
    // pipeline B and ignored by the other two objects.
    let mut quad = Mesh::new(config.quad_positions);
    let colors = uniform_colors(config.color, quad.vertex_count());
    let bound = quad.set_attribute(vertex_color_attribute_name(), colors);
    assert(bound is Ok);
    let quad_mesh = scene.meshes.add(quad);

    scene.renderables.push(
        Renderable::Sprite {
            material: color_material,
            size: config.sprite_size,
            transform: config.sprite_transform,
        },
    );
    scene.renderables.push(
        Renderable::MeshObject {
            mesh: quad_mesh,
            pipeline: mat_color_pipeline,
            input: PipelineInput::Material { material: custom_material },
            transform: config.material_quad_transform,
        },
    );
    scene.renderables.push(
        Renderable::MeshObject {
            mesh: quad_mesh,
            pipeline: vert_color_pipeline,
            input: PipelineInput::VertexAttribute { name: vertex_color_attribute_name() },
            transform: config.vertex_quad_transform,
        },
    );

    scene.cameras.push(Camera { scale: config.camera_scale });
    Ok(())
}

} // verus!
