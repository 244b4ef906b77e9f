//! Keys of the bind groups of Spine draws. A bind group is cached under the
//! hash of its key: the texture, the parameter buffer and the sampler it
//! binds.
use vstd::prelude::*;

use std::hash::{Hash, Hasher};

use crate::spine_render::gpu_state::SamplerDesc;
use crate::spine_render::shaders::KeySpinePipeline;

verus! {

/// `pi_hash::DefaultHasher::default()`, fed `key` through its `Hash` impl,
/// then `Hasher::finish`. Nothing is stated of the digest: the hasher is
/// FxHash of the machine's pointer width.
#[verifier::external_body]
fn hash_u64<K: Hash>(key: &K) -> u64 {
    let mut hasher = pi_hash::DefaultHasher::default();
    key.hash(&mut hasher);
    hasher.finish()
}

/// A bind group in use, with its dynamic offset.
pub struct UsedBindGroupSet0<G> {
    pub bindgroup: G,
    pub offsets: [u32; 1],
}

/// A bind group of set 1.
pub struct BindGroupSet1<G> {
    pub bindgroup: G,
}

/// A bind group of set 1 in use.
pub struct UsedBindGroupSet1<G> {
    pub bindgroup: G,
}

/// What a bind group binds: the key of the texture, if any, the key of the
/// parameter buffer, and the sampler, if any.
#[derive(Debug, Clone, Copy, PartialEq, Eq, Hash, Structural)]
pub struct KeySpineBindGroup {
    pub url: Option<u64>,
    pub buffer: usize,
    pub sampler: Option<SamplerDesc>,
}

impl KeySpineBindGroup {
    /// The key of the bind group of an untextured draw: its parameter
    /// buffer alone.
    pub fn colored(buffer: usize) -> (r: KeySpineBindGroup)
        ensures
            r == (KeySpineBindGroup { url: None, buffer, sampler: None }),
    {
        KeySpineBindGroup { url: None, buffer, sampler: None }
    }

    /// The key of the bind group of a textured draw: texture, parameter
    /// buffer and sampler.
    pub fn colored_textured(texture: u64, buffer: usize, sampler: SamplerDesc) -> (r:
        KeySpineBindGroup)
        ensures
            r == (KeySpineBindGroup { url: Some(texture), buffer, sampler: Some(sampler) }),
    {
        KeySpineBindGroup { url: Some(texture), buffer, sampler: Some(sampler) }
    }

    /// The cache key of the bind group: the hash of the key.
    pub fn to_u64(&self) -> u64 {
        hash_u64(self)
    }
}

impl KeySpinePipeline {
    /// The cache key of the pipeline: the hash of the key.
    pub fn as_u64(&self) -> u64 {
        hash_u64(self)
    }
}

} // verus!
