//! The shared resources of the batching renderer.
use vstd::prelude::*;

verus! {

/// The bind group layouts `L` and the pipeline pool `P` shared by the
/// renderers.
pub struct SpineResource<L, P> {
    pub layouts: L,
    pub pipelines: P,
}

impl<L, P> SpineResource<L, P> {
    pub fn new(layouts: L, pipelines: P) -> (r: Self)
        ensures
            r.layouts == layouts,
            r.pipelines == pipelines,
    {
        Self { layouts, pipelines }
    }
}

/// Identifies a batching renderer.
#[derive(Debug, Clone, Copy, PartialEq, Eq, Hash, Structural)]
pub struct KeySpineRenderer(pub u32);

} // verus!
