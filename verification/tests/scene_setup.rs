//! End-to-end tests of the scene initializer and of the two color channels.

use shader_scene::assets::{MaterialHandle, MeshHandle};
use shader_scene::color::{Position, Rgb, Size2};
use shader_scene::graph::RenderGraph;
use shader_scene::mesh::Mesh;
use shader_scene::pipeline::PipelineHandle;
use shader_scene::scene::{resolved_colors, PipelineInput, Renderable, ResolvedColors, Scene};
use shader_scene::setup::{setup, SceneConfig, SetupError};
use shader_scene::shader::ShaderStageKind;

const MAT_COLOR_VERT: &str = "void main() { gl_Position = vec4(Vertex_Position, 1.0); }";
const MAT_COLOR_FRAG: &str = "void main() { o_Target = CustomMaterial_color; }";
const VERT_COLOR_VERT: &str = "void main() { v_Color = Vertex_Color; }";
const VERT_COLOR_FRAG: &str = "void main() { o_Target = vec4(v_Color, 1.0); }";

fn rgb(r: f32, g: f32, b: f32) -> Rgb {
    Rgb::new(r.to_bits(), g.to_bits(), b.to_bits())
}

fn pos(x: f32, y: f32, z: f32) -> Position {
    Position::new(x.to_bits(), y.to_bits(), z.to_bits())
}

fn quad_positions(size: f32) -> Vec<Position> {
    let h = size / 2.0;
    vec![
        pos(-h, -h, 0.0),
        pos(h, -h, 0.0),
        pos(h, h, 0.0),
        pos(-h, h, 0.0),
    ]
}

fn demo_config() -> SceneConfig {
    let size = 5.0f32;
    SceneConfig {
        material_color_vertex_source: MAT_COLOR_VERT.to_string(),
        material_color_fragment_source: MAT_COLOR_FRAG.to_string(),
        vertex_color_vertex_source: VERT_COLOR_VERT.to_string(),
        vertex_color_fragment_source: VERT_COLOR_FRAG.to_string(),
        color: rgb(1.0, 0.25, 0.0),
        quad_positions: quad_positions(size),
        sprite_size: Size2::new(size.to_bits(), size.to_bits()),
        sprite_transform: pos(0.0, 0.0, 0.0),
        material_quad_transform: pos(size + 1.0, 0.0, 0.0),
        vertex_quad_transform: pos(size * 2.0 + 2.0, 0.0, 0.0),
        camera_scale: (1.0f32 / 15.0).to_bits(),
        main_pass_node: "main_pass".to_string(),
    }
}

fn host_graph() -> RenderGraph {
    let mut graph = RenderGraph::new();
    graph.add_system_node("main_pass".to_string()).unwrap();
    graph
}

#[test]
fn setup_builds_the_demo_scene() {
    let mut scene = Scene::new(host_graph());
    assert_eq!(setup(&mut scene, demo_config()), Ok(()));

    assert_eq!(scene.shaders.len(), 4);
    assert_eq!(scene.pipelines.len(), 2);
    assert_eq!(scene.color_materials.len(), 1);
    assert_eq!(scene.custom_materials.len(), 1);
    assert_eq!(scene.meshes.len(), 1);
    assert_eq!(scene.renderables.len(), 3);
    assert_eq!(scene.cameras.len(), 1);
    assert_eq!(scene.cameras[0].scale, (1.0f32 / 15.0).to_bits());
}

#[test]
fn setup_stores_the_shader_sources_in_order() {
    let mut scene = Scene::new(host_graph());
    setup(&mut scene, demo_config()).unwrap();

    let expected = [
        (ShaderStageKind::Vertex, MAT_COLOR_VERT),
        (ShaderStageKind::Fragment, MAT_COLOR_FRAG),
        (ShaderStageKind::Vertex, VERT_COLOR_VERT),
        (ShaderStageKind::Fragment, VERT_COLOR_FRAG),
    ];
    for (i, (stage, source)) in expected.iter().enumerate() {
        let shader = scene.shaders.get(shader_scene::shader::ShaderHandle { id: i });
        assert_eq!(shader.stage, *stage);
        assert_eq!(shader.source, *source);
    }
}

#[test]
fn setup_wires_both_pipelines_to_their_stages() {
    let mut scene = Scene::new(host_graph());
    setup(&mut scene, demo_config()).unwrap();

    let a = scene.pipelines.get(shader_scene::pipeline::PipelineHandle { id: 0 });
    assert_eq!(a.stages.vertex.id, 0);
    assert_eq!(a.stages.fragment.map(|f| f.id), Some(1));
    let b = scene.pipelines.get(shader_scene::pipeline::PipelineHandle { id: 1 });
    assert_eq!(b.stages.vertex.id, 2);
    assert_eq!(b.stages.fragment.map(|f| f.id), Some(3));
}

#[test]
fn setup_registers_the_material_node_ahead_of_the_main_pass() {
    let mut scene = Scene::new(host_graph());
    setup(&mut scene, demo_config()).unwrap();

    assert!(scene.render_graph.contains_node(&"custom_material".to_string()));
    // Re-registering the node now fails: its name is taken.
    assert_eq!(
        setup(&mut scene, demo_config()),
        Err(SetupError::NodeNameTaken),
    );
}

#[test]
fn setup_without_a_main_pass_fails_before_mutating() {
    let mut scene = Scene::new(RenderGraph::new());
    assert_eq!(
        setup(&mut scene, demo_config()),
        Err(SetupError::MissingMainPass),
    );
    assert_eq!(scene.shaders.len(), 0);
    assert_eq!(scene.pipelines.len(), 0);
    assert_eq!(scene.renderables.len(), 0);
    assert!(!scene.render_graph.contains_node(&"custom_material".to_string()));
}

#[test]
fn setup_objects_use_the_expected_channels() {
    let mut scene = Scene::new(host_graph());
    setup(&mut scene, demo_config()).unwrap();

    assert!(matches!(
        scene.renderables[0],
        Renderable::Sprite { material: MaterialHandle { id: 0 }, .. }
    ));
    assert!(matches!(
        scene.renderables[1],
        Renderable::MeshObject {
            mesh: MeshHandle { id: 0 },
            pipeline: PipelineHandle { id: 0 },
            input: PipelineInput::Material { material: MaterialHandle { id: 0 } },
            ..
        }
    ));
    match &scene.renderables[2] {
        Renderable::MeshObject {
            mesh: MeshHandle { id: 0 },
            pipeline: PipelineHandle { id: 1 },
            input: PipelineInput::VertexAttribute { name },
            ..
        } => assert_eq!(name, "Vertex_Color"),
        _ => panic!("third renderable is not the vertex-color quad"),
    }
}

#[test]
fn the_two_color_channels_do_not_interact() {
    let orange = rgb(1.0, 0.25, 0.0);
    let green = rgb(0.0, 1.0, 0.0);
    let blue = rgb(0.0, 0.0, 1.0);

    let mut scene = Scene::new(host_graph());
    setup(&mut scene, demo_config()).unwrap();

    // Pipeline A's quad draws the material color, pipeline B's quad the
    // per-vertex colors; both start out orange.
    assert_eq!(
        resolved_colors(&scene, &scene.renderables[1]),
        Some(ResolvedColors::Uniform(orange)),
    );
    assert_eq!(
        resolved_colors(&scene, &scene.renderables[2]),
        Some(ResolvedColors::PerVertex(vec![orange; 4])),
    );

    // Repainting the mesh's vertex colors changes only pipeline B's draw.
    scene
        .meshes
        .set_attribute(MeshHandle { id: 0 }, "Vertex_Color".to_string(), vec![green; 4])
        .unwrap();
    assert_eq!(
        resolved_colors(&scene, &scene.renderables[1]),
        Some(ResolvedColors::Uniform(orange)),
    );
    assert_eq!(
        resolved_colors(&scene, &scene.renderables[2]),
        Some(ResolvedColors::PerVertex(vec![green; 4])),
    );

    // Repainting the material block changes only pipeline A's draw.
    scene.custom_materials.set(MaterialHandle { id: 0 }, blue);
    assert_eq!(
        resolved_colors(&scene, &scene.renderables[1]),
        Some(ResolvedColors::Uniform(blue)),
    );
    assert_eq!(
        resolved_colors(&scene, &scene.renderables[2]),
        Some(ResolvedColors::PerVertex(vec![green; 4])),
    );
}

#[test]
fn objects_sharing_a_mesh_handle_see_one_mutation_identically() {
    let orange = rgb(1.0, 0.25, 0.0);
    let purple = rgb(0.5, 0.0, 1.0);

    let mut scene = Scene::new(host_graph());
    let mut mesh = Mesh::new(quad_positions(5.0));
    mesh.set_attribute("Vertex_Color".to_string(), vec![orange; 4]).unwrap();
    let handle = scene.meshes.add(mesh);

    let first = Renderable::MeshObject {
        mesh: handle,
        pipeline: PipelineHandle { id: 0 },
        input: PipelineInput::VertexAttribute { name: "Vertex_Color".to_string() },
        transform: pos(0.0, 0.0, 0.0),
    };
    let second = Renderable::MeshObject {
        mesh: handle,
        pipeline: PipelineHandle { id: 1 },
        input: PipelineInput::VertexAttribute { name: "Vertex_Color".to_string() },
        transform: pos(6.0, 0.0, 0.0),
    };
    scene.renderables.push(first);
    scene.renderables.push(second);

    // One mutation through the shared handle...
    scene
        .meshes
        .set_attribute(handle, "Vertex_Color".to_string(), vec![purple; 4])
        .unwrap();

    // ...is seen by both objects, identically.
    let a = resolved_colors(&scene, &scene.renderables[0]);
    let b = resolved_colors(&scene, &scene.renderables[1]);
    assert_eq!(a, Some(ResolvedColors::PerVertex(vec![purple; 4])));
    assert_eq!(a, b);
}
