//! A verified model of a small rendered scene: shader pipelines compiled from
//! paired vertex/fragment sources, a render graph of named nodes with ordering
//! edges, meshes carrying named per-vertex attributes, and renderable objects
//! that draw their color either from a per-material uniform block or from a
//! per-vertex attribute.

pub mod assets;
pub mod color;
pub mod graph;
pub mod mesh;
pub mod pipeline;
pub mod scene;
pub mod setup;
pub mod shader;
