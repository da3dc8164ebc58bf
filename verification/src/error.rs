//! The engine's error taxonomy. Errors carry the collaborator's diagnostic
//! text where one exists; none of them is fatal to the process.

use vstd::prelude::*;

verus! {

/// Everything that can go wrong inside the engine.
#[derive(Debug, Clone, PartialEq, Eq)]
pub enum EngineError {
    /// The windowing subsystem, a context version, or a window could not
    /// be created; the engine is left fully uninitialized.
    Initialization(String),
    /// `init` was called on an engine that is already initialized; the
    /// state is unchanged.
    AlreadyInitialized,
    /// A screen or resource operation was attempted before `init`.
    NotInitialized,
    /// A GPU-affecting call was made while no context was bound.
    ContextNotBound,
    /// A shader stage failed to compile; carries the compiler diagnostic.
    ShaderCompile(String),
    /// The shader program failed to link; carries the linker diagnostic.
    ShaderLink(String),
    /// A screen's active camera is unset or lacks a camera component;
    /// that screen's render pass is skipped for the frame.
    NoActiveCamera,
    /// Image decoding failed during texture creation; no GPU object is
    /// left allocated.
    ResourceLoad(String),
}

} // verus!
