//! A dual-display rendering engine: two windows with shared GPU resources,
//! an explicit context-binding state machine, a resource registry for
//! meshes, textures and shader programs, and a small scene graph with
//! camera and mesh components.
//!
//! All geometry runs on 16.16 fixed-point scalars so that every matrix and
//! vector computation has an exact mathematical specification. The platform
//! edge (window creation, event polling, buffer swaps, GL uploads) lives
//! outside this crate; the engine owns the logical state and decides what
//! the platform layer must do each frame.

pub mod camera;
pub mod color;
pub mod components;
pub mod engine;
pub mod error;
pub mod fx;
pub mod laws;
pub mod math;
pub mod mesh;
pub mod objects;
pub mod package;
pub mod renderer;
pub mod scene;
pub mod shader;
