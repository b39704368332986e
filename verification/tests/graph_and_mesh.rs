//! Unit tests of the render graph, the mesh attribute channel, and pipeline
//! registration.

use shader_scene::color::{Position, Rgb};
use shader_scene::graph::{GraphError, RenderGraph};
use shader_scene::mesh::{Mesh, MeshError};
use shader_scene::pipeline::{compile_pipeline, PipelineRegistry};
use shader_scene::shader::{ShaderRegistry, ShaderStageKind};

fn rgb(r: f32, g: f32, b: f32) -> Rgb {
    Rgb::new(r.to_bits(), g.to_bits(), b.to_bits())
}

fn pos(x: f32, y: f32, z: f32) -> Position {
    Position::new(x.to_bits(), y.to_bits(), z.to_bits())
}

fn four_corners() -> Vec<Position> {
    vec![
        pos(-2.5, -2.5, 0.0),
        pos(2.5, -2.5, 0.0),
        pos(2.5, 2.5, 0.0),
        pos(-2.5, 2.5, 0.0),
    ]
}

#[test]
fn registering_a_node_name_twice_fails() {
    let mut graph = RenderGraph::new();
    assert_eq!(graph.add_system_node("custom_material".to_string()), Ok(()));
    assert_eq!(
        graph.add_system_node("custom_material".to_string()),
        Err(GraphError::DuplicateNodeName),
    );
    assert!(graph.contains_node(&"custom_material".to_string()));
}

#[test]
fn an_edge_needs_both_nodes() {
    let mut graph = RenderGraph::new();
    graph.add_system_node("custom_material".to_string()).unwrap();
    assert_eq!(
        graph.add_node_edge("custom_material".to_string(), "main_pass".to_string()),
        Err(GraphError::MissingNode),
    );
    graph.add_system_node("main_pass".to_string()).unwrap();
    assert_eq!(
        graph.add_node_edge("custom_material".to_string(), "main_pass".to_string()),
        Ok(()),
    );
}

#[test]
fn binding_an_attribute_of_matching_length_succeeds() {
    let mut mesh = Mesh::new(four_corners());
    assert_eq!(mesh.vertex_count(), 4);
    assert_eq!(mesh.position_data().as_slice(), four_corners().as_slice());
    let colors = vec![rgb(1.0, 0.25, 0.0); 4];
    assert_eq!(mesh.set_attribute("Vertex_Color".to_string(), colors), Ok(()));
}

#[test]
fn binding_an_attribute_of_wrong_length_fails() {
    let mut mesh = Mesh::new(four_corners());
    let three = vec![rgb(1.0, 0.25, 0.0); 3];
    assert_eq!(
        mesh.set_attribute("Vertex_Color".to_string(), three),
        Err(MeshError::AttributeLengthMismatch),
    );
    let five = vec![rgb(1.0, 0.25, 0.0); 5];
    assert_eq!(
        mesh.set_attribute("Vertex_Color".to_string(), five),
        Err(MeshError::AttributeLengthMismatch),
    );
    assert!(mesh.attribute(&"Vertex_Color".to_string()).is_none());
}

#[test]
fn a_bound_attribute_reads_back_in_order() {
    let mut mesh = Mesh::new(four_corners());
    let orange = rgb(1.0, 0.25, 0.0);
    mesh.set_attribute("Vertex_Color".to_string(), vec![orange; 4]).unwrap();

    let read = mesh.attribute(&"Vertex_Color".to_string()).unwrap();
    assert_eq!(read.len(), 4);
    for triple in read {
        assert_eq!(triple.r, 1.0f32.to_bits());
        assert_eq!(triple.g, 0.25f32.to_bits());
        assert_eq!(triple.b, 0.0f32.to_bits());
    }
}

#[test]
fn rebinding_a_name_replaces_its_channel_only() {
    let mut mesh = Mesh::new(four_corners());
    let orange = rgb(1.0, 0.25, 0.0);
    let green = rgb(0.0, 1.0, 0.0);
    mesh.set_attribute("Vertex_Color".to_string(), vec![orange; 4]).unwrap();
    mesh.set_attribute("Vertex_Glow".to_string(), vec![orange; 4]).unwrap();
    mesh.set_attribute("Vertex_Color".to_string(), vec![green; 4]).unwrap();

    let recolored = mesh.attribute(&"Vertex_Color".to_string()).unwrap();
    assert_eq!(recolored[0], green);
    let untouched = mesh.attribute(&"Vertex_Glow".to_string()).unwrap();
    assert_eq!(untouched[0], orange);
}

#[test]
fn pipeline_registration_yields_usable_handles_and_keeps_others() {
    let mut shaders = ShaderRegistry::new();
    let mut pipelines = PipelineRegistry::new();

    let first = compile_pipeline(
        &mut shaders,
        &mut pipelines,
        "vertex stage a".to_string(),
        "fragment stage a".to_string(),
    );
    let second = compile_pipeline(
        &mut shaders,
        &mut pipelines,
        "vertex stage b".to_string(),
        "fragment stage b".to_string(),
    );

    assert_ne!(first.id, second.id);
    assert_eq!(pipelines.len(), 2);
    assert_eq!(shaders.len(), 4);

    // The first pipeline still references its own stages, untouched by the
    // second registration.
    let a = pipelines.get(first);
    assert_eq!(a.stages.vertex.id, 0);
    assert_eq!(a.stages.fragment.map(|f| f.id), Some(1));
    assert_eq!(shaders.get(a.stages.vertex).source, "vertex stage a");
    assert_eq!(shaders.get(a.stages.vertex).stage, ShaderStageKind::Vertex);
    assert_eq!(
        shaders.get(a.stages.fragment.unwrap()).source,
        "fragment stage a",
    );
    assert_eq!(
        shaders.get(a.stages.fragment.unwrap()).stage,
        ShaderStageKind::Fragment,
    );
}
