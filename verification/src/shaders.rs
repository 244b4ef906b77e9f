//! The shaders of the batching renderer.
use vstd::prelude::*;

verus! {

/// The three Spine shaders.
#[derive(Debug, Clone, Copy, PartialEq, Eq, Hash, Structural)]
pub enum EShader {
    Colored,
    ColoredTextured,
    TwoColoredTextured,
}

} // verus!
