//! The recorder of one Spine renderer.
//!
//! Commands set the shader, the blending, the texture and the uniform
//! parameters, and record draws. Once a frame, the recorded draws are
//! turned into draw plans: their vertices and indices are staged into the
//! shared GPU buffers, and each plan says which parameter buffer, which
//! bind group and which pipeline the draw uses. The application then makes
//! the bind groups and pipelines and hands back the draw objects.
use vstd::prelude::*;

use pi_hash::XHashMap;

use crate::spine_render::gpu_state::{
    spec_blend_for, BlendComponent, BlendFactor, BlendOperation, BlendState, ColorTargetState,
    FrontFace, KeyRenderPipelineState, MultisampleState, PolygonMode, PrimitiveState,
    PrimitiveTopology, SamplerDesc, TextureFormat, COLOR_WRITES_ALL,
};
use crate::spine_render::shaders::{KeySpinePipeline, KeySpineShader};
use crate::spine_render::vertex_buffer::{
    kept_len, lemma_staged_then_uploaded, nonempty_indices, padded, staged_at, writes_match,
    SpineIndicesBufferAllocator, SpineVertexBufferAllocator,
};
use crate::xmap::{xmap_insert, xmap_new, xmap_remove};

verus! {

/// `bytes` are `values` as they lie in memory: two bytes each, the low one
/// first on a little-endian machine, the high one first on a big-endian
/// machine.
pub open spec fn u16_bytes(bytes: Seq<u8>, values: Seq<u16>) -> bool {
    &&& bytes.len() == 2 * values.len()
    &&& {
        ||| forall|i: int|
            0 <= i < values.len() ==> #[trigger] values[i] == bytes[2 * i] + 256 * bytes[2 * i + 1]
        ||| forall|i: int|
            0 <= i < values.len() ==> #[trigger] values[i] == 256 * bytes[2 * i] + bytes[2 * i + 1]
    }
}

/// `bytemuck::cast_slice` from `u16` to bytes: the same memory seen as
/// bytes, two per index, in the machine's byte order (which of the two
/// orders is not stated).
#[verifier::external_body]
fn indices_as_bytes(indices: &[u16]) -> (r: &[u8])
    ensures
        u16_bytes(r@, indices@),
{
    bytemuck::cast_slice(indices)
}

/// One recorded draw.
pub struct SpineDraw<T, S> {
    /// Index of the uniform parameters the draw uses.
    pub bind_key: usize,
    /// The vertex data, as bytes.
    pub vertices: Vec<u8>,
    pub indices: Option<Vec<u16>>,
    pub verticeslen: u32,
    pub indiceslen: u32,
    pub texture: Option<T>,
    pub sampler: Option<S>,
    pub shader: KeySpineShader,
    pub pipeline: KeySpinePipeline,
}

/// The pipeline key of a draw: triangle lists filled, no culling, one
/// sample, and one color target of the renderer's format and blending.
pub open spec fn spec_draw_pipeline_key(
    shader: KeySpineShader,
    format: TextureFormat,
    blend: Option<BlendState>,
) -> KeySpinePipeline {
    KeySpinePipeline {
        key_shader: shader,
        key_state: KeyRenderPipelineState {
            primitive: PrimitiveState {
                topology: PrimitiveTopology::TriangleList,
                strip_index_format: None,
                front_face: FrontFace::Ccw,
                cull_mode: None,
                unclipped_depth: false,
                polygon_mode: PolygonMode::Fill,
                conservative: false,
            },
            multisample: MultisampleState {
                count: 1,
                mask: 0xffff_ffff_ffff_ffff,
                alpha_to_coverage_enabled: false,
            },
            target_state: Some(
                ColorTargetState { format, blend, write_mask: COLOR_WRITES_ALL as u32 },
            ),
        },
    }
}

/// The abstract state of a renderer.
pub struct RendererView<T, S, G, O> {
    pub bind_groups: Seq<G>,
    pub draws: Seq<SpineDraw<T, S>>,
    pub drawobjs: Seq<O>,
    pub shader: Option<KeySpineShader>,
    pub blend: BlendState,
    pub enableblend: bool,
    pub textures: Map<u64, T>,
    /// Samplers, by the key of their description ([`SamplerDesc::key`]).
    pub samplers: Map<u64, S>,
    pub uniform_param: Seq<Seq<u8>>,
    pub texture: Option<T>,
    pub sampler: Option<S>,
    pub target_format: TextureFormat,
}

/// The recorder of one Spine renderer; `T` and `S` are textures and
/// samplers, `G` bind groups and `O` draw objects of the application.
pub struct RendererAsync<T, S, G, O> {
    pub(crate) bind_groups: Vec<G>,
    pub(crate) draws: Vec<SpineDraw<T, S>>,
    pub(crate) drawobjs: Vec<O>,
    pub(crate) shader: Option<KeySpineShader>,
    pub(crate) blend: BlendState,
    pub(crate) enableblend: bool,
    pub(crate) textures: XHashMap<u64, T>,
    pub(crate) samplers: XHashMap<u64, S>,
    pub(crate) uniform_param: Vec<Vec<u8>>,
    pub(crate) texture: Option<T>,
    pub(crate) sampler: Option<S>,
    pub target_format: TextureFormat,
}

impl<T, S, G, O> View for RendererAsync<T, S, G, O> {
    type V = RendererView<T, S, G, O>;

    closed spec fn view(&self) -> RendererView<T, S, G, O> {
        RendererView {
            bind_groups: self.bind_groups@,
            draws: self.draws@,
            drawobjs: self.drawobjs@,
            shader: self.shader,
            blend: self.blend,
            enableblend: self.enableblend,
            textures: self.textures@,
            samplers: self.samplers@,
            uniform_param: Seq::new(self.uniform_param@.len(), |i: int| self.uniform_param@[i]@),
            texture: self.texture,
            sampler: self.sampler,
            target_format: self.target_format,
        }
    }
}

/// Where the bind group of a planned draw comes from.
pub enum BindGroupSource<T, S> {
    /// The parameter buffer alone.
    Colored,
    /// The parameter buffer, a texture and a sampler.
    Textured(T, S),
}

/// A draw whose vertices (and indices) are staged, ready for the GPU.
pub struct DrawPlan<B, T, S> {
    /// Index of the draw's parameter buffer.
    pub bind_key: usize,
    pub bind_group: BindGroupSource<T, S>,
    pub pipeline: KeySpinePipeline,
    /// GPU buffer and byte range of the vertices.
    pub vertices: (B, u32, u32),
    /// GPU buffer and byte range of the indices, for indexed draws.
    pub indices: Option<(B, u32, u32)>,
    /// The draw covers vertices `0..vertex_count`.
    pub vertex_count: u32,
}

/// The draw can be planned when its parameter buffer exists and, for
/// textured shaders, it has both a texture and a sampler.
pub open spec fn draw_is_complete<T, S>(d: SpineDraw<T, S>, binds_len: nat) -> bool {
    &&& d.bind_key < binds_len
    &&& d.shader.spec_is_textured() ==> d.texture is Some && d.sampler is Some
}

/// `p` is the plan of the draw `d`.
pub open spec fn plan_matches<B, T: Clone, S: Clone>(p: DrawPlan<B, T, S>, d: SpineDraw<T, S>) -> bool {
    &&& p.bind_key == d.bind_key
    &&& p.pipeline == d.pipeline
    &&& p.vertex_count == d.verticeslen
    &&& p.indices is Some == d.indices is Some
    &&& p.vertices.1 <= p.vertices.2
    &&& match p.bind_group {
        BindGroupSource::Colored => !d.shader.spec_is_textured(),
        BindGroupSource::Textured(t, s) => d.shader.spec_is_textured() && cloned(
            d.texture.unwrap(),
            t,
        ) && cloned(d.sampler.unwrap(), s),
    }
}

impl<T: Clone, S: Clone, G, O> RendererAsync<T, S, G, O> {
    /// A renderer with nothing recorded, blending "source alpha over",
    /// drawing to `Bgra8Unorm`.
    pub fn new() -> (r: Self)
        ensures
            r@.bind_groups == Seq::<G>::empty(),
            r@.draws == Seq::<SpineDraw<T, S>>::empty(),
            r@.drawobjs == Seq::<O>::empty(),
            r@.shader is None,
            r@.blend == spec_blend_for(BlendFactor::SrcAlpha, BlendFactor::OneMinusSrcAlpha),
            r@.enableblend,
            r@.textures == Map::<u64, T>::empty(),
            r@.samplers == Map::<u64, S>::empty(),
            r@.uniform_param == Seq::<Seq<u8>>::empty(),
            r@.texture is None,
            r@.sampler is None,
            r@.target_format == TextureFormat::Bgra8Unorm,
    {
        let r = RendererAsync {
            bind_groups: Vec::new(),
            draws: Vec::new(),
            drawobjs: Vec::new(),
            shader: None,
            blend: BlendState {
                color: BlendComponent {
                    src_factor: BlendFactor::SrcAlpha,
                    dst_factor: BlendFactor::OneMinusSrcAlpha,
                    operation: BlendOperation::Add,
                },
                alpha: BlendComponent::over(),
            },
            enableblend: true,
            textures: xmap_new(),
            samplers: xmap_new(),
            uniform_param: Vec::new(),
            texture: None,
            sampler: None,
            target_format: TextureFormat::Bgra8Unorm,
        };
        assert(r@.uniform_param =~= Seq::<Seq<u8>>::empty());
        r
    }

    /// Forgets the draws, the bind groups and the draw objects of the last
    /// frame; everything else stays.
    pub fn reset(&mut self)
        ensures
            final(self)@ == (RendererView {
                bind_groups: Seq::empty(),
                draws: Seq::empty(),
                drawobjs: Seq::empty(),
                ..old(self)@
            }),
    {
        self.bind_groups.clear();
        self.draws.clear();
        self.drawobjs.clear();
    }

    /// Sets the format of the renderer's target.
    pub fn set_target_format(&mut self, format: TextureFormat)
        ensures
            final(self)@ == (RendererView { target_format: format, ..old(self)@ }),
    {
        self.target_format = format;
    }

    /// Sets the shader of the next draws.
    pub fn shader(&mut self, shader: Option<KeySpineShader>)
        ensures
            final(self)@ == (RendererView { shader, ..old(self)@ }),
    {
        self.shader = shader;
    }

    /// Adds a set of uniform parameters (as bytes); the next draws use it.
    pub fn uniform(&mut self, uniform_param: Vec<u8>)
        ensures
            final(self)@ == (RendererView {
                uniform_param: old(self)@.uniform_param.push(uniform_param@),
                ..old(self)@
            }),
    {
        self.uniform_param.push(uniform_param);
        assert(self@.uniform_param =~= old(self)@.uniform_param.push(uniform_param@));
    }

    /// Turns blending on or off for the next draws.
    pub fn blend(&mut self, flag: bool)
        ensures
            final(self)@ == (RendererView { enableblend: flag, ..old(self)@ }),
    {
        self.enableblend = flag;
    }

    /// Sets the color factors of the blending of the next draws.
    pub fn blend_mode(&mut self, src_factor: BlendFactor, dst_factor: BlendFactor)
        ensures
            final(self)@ == (RendererView { blend: spec_blend_for(src_factor, dst_factor), ..old(self)@ }),
    {
        self.blend = BlendState::with_factors(src_factor, dst_factor);
    }

    /// Sets the texture and the sampler of the next draws.
    pub fn texture(&mut self, texture: Option<T>, sampler: Option<S>)
        ensures
            final(self)@ == (RendererView { texture, sampler, ..old(self)@ }),
    {
        self.texture = texture;
        self.sampler = sampler;
    }

    /// Keeps a texture under its key.
    pub fn record_texture(&mut self, key_texture: u64, texture: T)
        ensures
            final(self)@ == (RendererView {
                textures: old(self)@.textures.insert(key_texture, texture),
                ..old(self)@
            }),
    {
        xmap_insert(&mut self.textures, key_texture, texture);
    }

    /// Keeps a sampler under its description.
    pub fn record_sampler(&mut self, key_sampler: SamplerDesc, sampler: S)
        ensures
            final(self)@ == (RendererView {
                samplers: old(self)@.samplers.insert(key_sampler.spec_key() as u64, sampler),
                ..old(self)@
            }),
    {
        let key = key_sampler.key();
        xmap_insert(&mut self.samplers, key, sampler);
    }

    /// Drops the texture kept under a key.
    pub fn remove_texture(&mut self, key_texture: u64)
        ensures
            final(self)@ == (RendererView {
                textures: old(self)@.textures.remove(key_texture),
                ..old(self)@
            }),
    {
        xmap_remove(&mut self.textures, &key_texture);
    }

    /// Whether a draw command is recorded: a shader is set, some uniform
    /// parameters exist, and a textured shader has a texture or a sampler.
    pub open spec fn spec_draw_accepted(v: RendererView<T, S, G, O>) -> bool {
        &&& v.shader is Some
        &&& v.uniform_param.len() > 0
        &&& v.shader.unwrap().spec_is_textured() ==> v.texture is Some || v.sampler is Some
    }

    /// The outcome of [`RendererAsync::draw`] from the state `v` to `w`.
    pub open spec fn spec_draw_post(
        v: RendererView<T, S, G, O>,
        w: RendererView<T, S, G, O>,
        vertices: Seq<u8>,
        indices: Option<Vec<u16>>,
        vertices_len: u32,
        indices_len: u32,
    ) -> bool {
        &&& !Self::spec_draw_accepted(v) ==> w == v
        &&& Self::spec_draw_accepted(v) ==> {
            let d = w.draws.last();
            &&& w == (RendererView { draws: v.draws.push(d), ..v })
            &&& d.bind_key == v.uniform_param.len() - 1
            &&& d.vertices@ == vertices
            &&& d.indices == indices
            &&& d.verticeslen == vertices_len
            &&& d.indiceslen == indices_len
            &&& d.shader == v.shader.unwrap()
            &&& d.texture is Some == v.texture is Some
            &&& d.texture is Some ==> cloned(v.texture.unwrap(), d.texture.unwrap())
            &&& d.sampler is Some == v.sampler is Some
            &&& d.sampler is Some ==> cloned(v.sampler.unwrap(), d.sampler.unwrap())
            &&& d.pipeline == spec_draw_pipeline_key(
                v.shader.unwrap(),
                v.target_format,
                if v.enableblend {
                    Some(v.blend)
                } else {
                    None
                },
            )
        }
    }

    /// Records a draw of `vertices` (bytes) and `indices` with the current
    /// shader, texture, sampler and last uniform parameters, unless the
    /// draw cannot be made (see [`RendererAsync::spec_draw_accepted`]), in
    /// which case nothing changes.
    pub fn draw(
        &mut self,
        vertices: Vec<u8>,
        indices: Option<Vec<u16>>,
        vertices_len: u32,
        indices_len: u32,
    )
        ensures
            Self::spec_draw_post(
                old(self)@,
                final(self)@,
                vertices@,
                indices,
                vertices_len,
                indices_len,
            ),
    {
        let shader = match self.shader {
            Some(shader) => shader,
            None => {
                return;
            },
        };
        if self.uniform_param.len() == 0 {
            return;
        }
        match shader {
            KeySpineShader::Colored => {},
            KeySpineShader::ColoredTextured => {
                if self.texture.is_none() && self.sampler.is_none() {
                    return;
                }
            },
            KeySpineShader::TwoColoredTextured => {
                if self.texture.is_none() && self.sampler.is_none() {
                    return;
                }
            },
        }
        let blend = if self.enableblend {
            Some(self.blend)
        } else {
            None
        };
        let key = KeySpinePipeline {
            key_shader: shader,
            key_state: KeyRenderPipelineState {
                primitive: PrimitiveState {
                    topology: PrimitiveTopology::TriangleList,
                    strip_index_format: None,
                    front_face: FrontFace::Ccw,
                    cull_mode: None,
                    unclipped_depth: false,
                    polygon_mode: PolygonMode::Fill,
                    conservative: false,
                },
                multisample: MultisampleState {
                    count: 1,
                    mask: !0u64,
                    alpha_to_coverage_enabled: false,
                },
                target_state: Some(
                    ColorTargetState {
                        format: self.target_format,
                        blend,
                        write_mask: COLOR_WRITES_ALL,
                    },
                ),
            },
        };
        assert(!0u64 == 0xffff_ffff_ffff_ffffu64) by (bit_vector);
        let draw = SpineDraw {
            bind_key: self.uniform_param.len() - 1,
            vertices,
            indices,
            verticeslen: vertices_len,
            indiceslen: indices_len,
            texture: self.texture.clone(),
            sampler: self.sampler.clone(),
            shader,
            pipeline: key,
        };
        self.draws.push(draw);
    }
}


/// `f` always makes its buffer.
pub open spec fn never_fails<B, F: Fn(Vec<u8>) -> Option<B>>(f: &F) -> bool {
    forall|v: Vec<u8>, o: Option<B>| call_ensures(*f, (v,), o) ==> o is Some
}

/// Indices, in increasing order, of the draws among the first `k` that can
/// be planned.
pub open spec fn complete_indices<T, S>(draws: Seq<SpineDraw<T, S>>, binds_len: nat, k: int) -> Seq<
    int,
>
    decreases k,
{
    if k <= 0 {
        Seq::empty()
    } else if draw_is_complete(draws[k - 1], binds_len) {
        complete_indices(draws, binds_len, k - 1).push(k - 1)
    } else {
        complete_indices(draws, binds_len, k - 1)
    }
}

/// `plans` are, in order, the plans of the complete draws at `src`, with
/// their vertex and index ranges inside the staging capacities.
pub open spec fn plans_follow<B, T: Clone, S: Clone>(
    plans: Seq<DrawPlan<B, T, S>>,
    draws: Seq<SpineDraw<T, S>>,
    binds_len: nat,
    src: Seq<int>,
    vertex_capacity: nat,
    index_capacity: nat,
) -> bool {
    &&& plans.len() == src.len()
    &&& forall|k: int, l: int| 0 <= k < l < src.len() ==> src[k] < src[l]
    &&& forall|k: int|
        0 <= k < src.len() ==> {
            &&& 0 <= #[trigger] src[k] < draws.len()
            &&& draw_is_complete(draws[src[k]], binds_len)
            &&& plan_matches(plans[k], draws[src[k]])
            &&& plans[k].vertices.2 <= vertex_capacity
            &&& plans[k].indices matches Some(ib) ==> ib.1 <= ib.2 <= index_capacity
        }
}

/// The data on the GPU for plan `p` is the data of draw `d`: the vertex
/// staging buffers hold, at the plan's vertex range, the draw's vertex
/// bytes cut to the whole vertices that fit one buffer, and the index
/// staging buffers hold, at the plan's index range, the draw's indices as
/// bytes, cut likewise.
pub open spec fn plan_staged<B: Clone, T, S>(
    p: DrawPlan<B, T, S>,
    d: SpineDraw<T, S>,
    vstaged: Seq<Seq<u8>>,
    vhandles: Seq<B>,
    vcap: nat,
    istaged: Seq<Seq<u8>>,
    ihandles: Seq<B>,
    icap: nat,
) -> bool {
    let vkept = kept_len(vcap, d.vertices@.len(), d.shader.spec_vertices_bytes_per_element());
    &&& p.vertices.2 == p.vertices.1 + vkept
    &&& staged_at(vstaged, vhandles, p.vertices, d.vertices@.take(vkept as int))
    &&& p.indices matches Some(ib) ==> exists|bytes: Seq<u8>|
        {
            &&& u16_bytes(bytes, d.indices.unwrap()@)
            &&& ib.2 == ib.1 + kept_len(icap, bytes.len(), 2)
            &&& #[trigger] staged_at(
                istaged,
                ihandles,
                ib,
                bytes.take(kept_len(icap, bytes.len(), 2) as int),
            )
        }
}

/// Planning the draw `d` asked for a new buffer and got none: either for
/// its vertex bytes (cut to the whole vertices that fit a buffer, padded
/// with zeros to the capacity), or, for an indexed draw, for its index
/// bytes (in the machine's byte order, cut and padded likewise).
pub open spec fn creation_failed<B, T, S, FV: Fn(Vec<u8>) -> Option<B>, FI: Fn(Vec<u8>) -> Option<B>>(
    d: SpineDraw<T, S>,
    create_vertex_buffer: &FV,
    create_index_buffer: &FI,
    vcap: nat,
    icap: nat,
) -> bool {
    ||| exists|v: Vec<u8>|
        v@ == padded(
            d.vertices@.take(
                kept_len(vcap, d.vertices@.len(), d.shader.spec_vertices_bytes_per_element()) as int,
            ),
            vcap,
        ) && #[trigger] call_ensures(*create_vertex_buffer, (v,), None::<B>)
    ||| d.indices is Some && exists|v: Vec<u8>, bytes: Seq<u8>|
        u16_bytes(bytes, d.indices.unwrap()@) && v@ == padded(
            bytes.take(kept_len(icap, bytes.len(), 2) as int),
            icap,
        ) && #[trigger] call_ensures(*create_index_buffer, (v,), None::<B>) && #[trigger] u16_bytes(
            bytes,
            d.indices.unwrap()@,
        )
}

/// Every complete draw among `draws` that got no plan (its index is not in
/// `src`) had a failed buffer creation while it was planned.
pub open spec fn unplanned_failed<B, T, S, FV: Fn(Vec<u8>) -> Option<B>, FI: Fn(Vec<u8>) -> Option<B>>(
    draws: Seq<SpineDraw<T, S>>,
    binds_len: nat,
    src: Seq<int>,
    create_vertex_buffer: &FV,
    create_index_buffer: &FI,
    vcap: nat,
    icap: nat,
    upto: int,
) -> bool {
    forall|i: int|
        0 <= i < upto && draw_is_complete(#[trigger] draws[i], binds_len) && !src.contains(i)
            ==> creation_failed(draws[i], create_vertex_buffer, create_index_buffer, vcap, icap)
}

/// Every plan's data on the GPU is its draw's (see [`plan_staged`]); `src`
/// says which draw each plan is of.
pub open spec fn plans_staged<B: Clone, T, S>(
    plans: Seq<DrawPlan<B, T, S>>,
    draws: Seq<SpineDraw<T, S>>,
    src: Seq<int>,
    vstaged: Seq<Seq<u8>>,
    vhandles: Seq<B>,
    vcap: nat,
    istaged: Seq<Seq<u8>>,
    ihandles: Seq<B>,
    icap: nat,
) -> bool {
    forall|k: int|
        0 <= k < plans.len() ==> plan_staged(
            #[trigger] plans[k],
            draws[src[k]],
            vstaged,
            vhandles,
            vcap,
            istaged,
            ihandles,
            icap,
        )
}

/// Plans one draw: stages its vertices, then its indices, then checks its
/// parameter buffer and its texture; `None` when a step fails.
fn plan_one<
    B: Clone,
    T: Clone,
    S: Clone,
    FV: Fn(Vec<u8>) -> Option<B>,
    FI: Fn(Vec<u8>) -> Option<B>,
>(
    draw: &SpineDraw<T, S>,
    binds_len: usize,
    vertices: &mut SpineVertexBufferAllocator<B>,
    indices: &mut SpineIndicesBufferAllocator<B>,
    create_vertex_buffer: &FV,
    create_index_buffer: &FI,
) -> (r: Option<DrawPlan<B, T, S>>)
    requires
        old(vertices).wf(),
        old(indices).wf(),
        forall|v: Vec<u8>| call_requires(*create_vertex_buffer, (v,)),
        forall|v: Vec<u8>| call_requires(*create_index_buffer, (v,)),
    ensures
        final(vertices).wf(),
        final(indices).wf(),
        final(vertices).capacity() == old(vertices).capacity(),
        final(indices).capacity() == old(indices).capacity(),
        r matches Some(p) ==> {
            &&& draw_is_complete(*draw, binds_len as nat)
            &&& plan_matches(p, *draw)
            &&& p.vertices.2 <= old(vertices).capacity()
            &&& p.indices matches Some(ib) ==> ib.1 <= ib.2 <= old(indices).capacity()
        },
        never_fails(create_vertex_buffer) && never_fails(create_index_buffer) && draw_is_complete(
            *draw,
            binds_len as nat,
        ) ==> r is Some,
        r is None && draw_is_complete(*draw, binds_len as nat) ==> creation_failed(
            *draw,
            create_vertex_buffer,
            create_index_buffer,
            old(vertices).capacity(),
            old(indices).capacity(),
        ),
        r matches Some(p) ==> plan_staged(
            p,
            *draw,
            final(vertices).staged(),
            final(vertices).handles(),
            old(vertices).capacity(),
            final(indices).staged(),
            final(indices).handles(),
            old(indices).capacity(),
        ),
        forall|range: (B, u32, u32), bytes: Seq<u8>|
            staged_at(old(vertices).staged(), old(vertices).handles(), range, bytes)
                ==> #[trigger] staged_at(final(vertices).staged(), final(vertices).handles(), range, bytes),
        forall|range: (B, u32, u32), bytes: Seq<u8>|
            staged_at(old(indices).staged(), old(indices).handles(), range, bytes)
                ==> #[trigger] staged_at(final(indices).staged(), final(indices).handles(), range, bytes),
{
    let bpe = draw.shader.vertices_bytes_per_element();
    let vb = match vertices.collect(draw.vertices.as_slice(), bpe, create_vertex_buffer) {
        Some(vb) => vb,
        None => {
            return None;
        },
    };
    let ib = match &draw.indices {
        Some(ix) => {
            let bytes = indices_as_bytes(ix.as_slice());
            match indices.collect(bytes, 2, create_index_buffer) {
                Some(ib) => Some(ib),
                None => {
                    return None;
                },
            }
        },
        None => None,
    };
    if draw.bind_key >= binds_len {
        return None;
    }
    let bind_group = match draw.shader {
        KeySpineShader::Colored => BindGroupSource::Colored,
        _ => match (&draw.texture, &draw.sampler) {
            (Some(texture), Some(sampler)) => BindGroupSource::Textured(
                texture.clone(),
                sampler.clone(),
            ),
            _ => {
                return None;
            },
        },
    };
    Some(
        DrawPlan {
            bind_key: draw.bind_key,
            bind_group,
            pipeline: draw.pipeline,
            vertices: vb,
            indices: ib,
            vertex_count: draw.verticeslen,
        },
    )
}

impl<T: Clone, S: Clone, G, O> RendererAsync<T, S, G, O> {
    /// Hands over the uniform parameters recorded since the last frame, and
    /// forgets them.
    pub fn take_uniform_params(&mut self) -> (r: Vec<Vec<u8>>)
        ensures
            r@.len() == old(self)@.uniform_param.len(),
            forall|i: int| 0 <= i < r@.len() ==> (#[trigger] r@[i])@ == old(self)@.uniform_param[i],
            final(self)@ == (RendererView { uniform_param: Seq::empty(), ..old(self)@ }),
    {
        let mut r: Vec<Vec<u8>> = Vec::new();
        std::mem::swap(&mut r, &mut self.uniform_param);
        assert(self@.uniform_param =~= Seq::<Seq<u8>>::empty());
        r
    }

    /// Plans the recorded draws, in order, and forgets them. `binds_len` is
    /// the number of parameter buffers made from the uniform parameters. A
    /// draw gets a plan when its vertices (and indices) could be staged,
    /// its parameter buffer exists and, for textured shaders, it has a
    /// texture and a sampler; the others are dropped. When buffers can
    /// always be created, exactly the complete draws get a plan; in any
    /// case, a complete draw gets none only when a buffer creation for its
    /// own bytes failed (see [`unplanned_failed`]). The
    /// staging buffers hold each plan's vertex and index bytes at the
    /// plan's ranges (see [`plan_staged`]), and what they held before
    /// stays.
    pub fn drawlist_plan<B: Clone, FV: Fn(Vec<u8>) -> Option<B>, FI: Fn(Vec<u8>) -> Option<B>>(
        &mut self,
        binds_len: usize,
        vertices: &mut SpineVertexBufferAllocator<B>,
        indices: &mut SpineIndicesBufferAllocator<B>,
        create_vertex_buffer: &FV,
        create_index_buffer: &FI,
    ) -> (plans: Vec<DrawPlan<B, T, S>>)
        requires
            old(vertices).wf(),
            old(indices).wf(),
            forall|v: Vec<u8>| call_requires(*create_vertex_buffer, (v,)),
            forall|v: Vec<u8>| call_requires(*create_index_buffer, (v,)),
        ensures
            final(self)@ == (RendererView { draws: Seq::empty(), ..old(self)@ }),
            final(vertices).wf(),
            final(indices).wf(),
            final(vertices).capacity() == old(vertices).capacity(),
            final(indices).capacity() == old(indices).capacity(),
            exists|src: Seq<int>|
                {
                    &&& #[trigger] plans_follow(
                        plans@,
                        old(self)@.draws,
                        binds_len as nat,
                        src,
                        old(vertices).capacity(),
                        old(indices).capacity(),
                    )
                    &&& plans_staged(
                        plans@,
                        old(self)@.draws,
                        src,
                        final(vertices).staged(),
                        final(vertices).handles(),
                        old(vertices).capacity(),
                        final(indices).staged(),
                        final(indices).handles(),
                        old(indices).capacity(),
                    )
                    &&& unplanned_failed(
                        old(self)@.draws,
                        binds_len as nat,
                        src,
                        create_vertex_buffer,
                        create_index_buffer,
                        old(vertices).capacity(),
                        old(indices).capacity(),
                        old(self)@.draws.len() as int,
                    )
                },
            never_fails(create_vertex_buffer) && never_fails(create_index_buffer) ==> {
                &&& plans_follow(
                    plans@,
                    old(self)@.draws,
                    binds_len as nat,
                    complete_indices(old(self)@.draws, binds_len as nat, old(self)@.draws.len() as int),
                    old(vertices).capacity(),
                    old(indices).capacity(),
                )
                &&& plans_staged(
                    plans@,
                    old(self)@.draws,
                    complete_indices(old(self)@.draws, binds_len as nat, old(self)@.draws.len() as int),
                    final(vertices).staged(),
                    final(vertices).handles(),
                    old(vertices).capacity(),
                    final(indices).staged(),
                    final(indices).handles(),
                    old(indices).capacity(),
                )
            },
            forall|range: (B, u32, u32), bytes: Seq<u8>|
                staged_at(old(vertices).staged(), old(vertices).handles(), range, bytes)
                    ==> #[trigger] staged_at(final(vertices).staged(), final(vertices).handles(), range, bytes),
            forall|range: (B, u32, u32), bytes: Seq<u8>|
                staged_at(old(indices).staged(), old(indices).handles(), range, bytes)
                    ==> #[trigger] staged_at(final(indices).staged(), final(indices).handles(), range, bytes),
    {
        let mut draws: Vec<SpineDraw<T, S>> = Vec::new();
        std::mem::swap(&mut draws, &mut self.draws);
        let ghost all = draws@;
        let ghost vcap = vertices.capacity();
        let ghost icap = indices.capacity();
        let ghost ok = never_fails(create_vertex_buffer) && never_fails(create_index_buffer);
        let ghost vstaged0 = vertices.staged();
        let ghost vhandles0 = vertices.handles();
        let ghost istaged0 = indices.staged();
        let ghost ihandles0 = indices.handles();
        let mut plans: Vec<DrawPlan<B, T, S>> = Vec::new();
        let ghost mut src: Seq<int> = Seq::empty();
        let mut i: usize = 0;
        while i < draws.len()
            invariant
                draws@ == all,
                0 <= i <= all.len(),
                vertices.wf(),
                indices.wf(),
                vertices.capacity() == vcap,
                indices.capacity() == icap,
                forall|v: Vec<u8>| call_requires(*create_vertex_buffer, (v,)),
                forall|v: Vec<u8>| call_requires(*create_index_buffer, (v,)),
                ok == (never_fails(create_vertex_buffer) && never_fails(create_index_buffer)),
                plans_follow(plans@, all, binds_len as nat, src, vcap, icap),
                forall|k: int| 0 <= k < src.len() ==> #[trigger] src[k] < i,
                ok ==> src == complete_indices(all, binds_len as nat, i as int),
                plans_staged(
                    plans@,
                    all,
                    src,
                    vertices.staged(),
                    vertices.handles(),
                    vcap,
                    indices.staged(),
                    indices.handles(),
                    icap,
                ),
                unplanned_failed(
                    all,
                    binds_len as nat,
                    src,
                    create_vertex_buffer,
                    create_index_buffer,
                    vcap,
                    icap,
                    i as int,
                ),
                forall|range: (B, u32, u32), bytes: Seq<u8>|
                    staged_at(vstaged0, vhandles0, range, bytes) ==> #[trigger] staged_at(
                        vertices.staged(),
                        vertices.handles(),
                        range,
                        bytes,
                    ),
                forall|range: (B, u32, u32), bytes: Seq<u8>|
                    staged_at(istaged0, ihandles0, range, bytes) ==> #[trigger] staged_at(
                        indices.staged(),
                        indices.handles(),
                        range,
                        bytes,
                    ),
            decreases all.len() - i,
        {
            let ghost src_old = src;
            let ghost plans_old = plans@;
            let ghost vs = vertices.staged();
            let ghost vh = vertices.handles();
            let ghost is = indices.staged();
            let ghost ih = indices.handles();
            let r = plan_one(
                &draws[i],
                binds_len,
                vertices,
                indices,
                create_vertex_buffer,
                create_index_buffer,
            );
            match r {
                Some(p) => {
                    plans.push(p);
                    proof {
                        src = src.push(i as int);
                    }
                },
                None => {},
            }
            proof {
                assert forall|k: int| 0 <= k < src.len() implies {
                    &&& 0 <= #[trigger] src[k] < all.len()
                    &&& draw_is_complete(all[src[k]], binds_len as nat)
                    &&& plan_matches(plans@[k], all[src[k]])
                    &&& plans@[k].vertices.2 <= vcap
                    &&& plans@[k].indices matches Some(ib) ==> ib.1 <= ib.2 <= icap
                } by {
                    if k < src_old.len() {
                        assert(src[k] == src_old[k]);
                        assert(plans@[k] == plans_old[k]);
                    }
                }
                assert forall|k: int| 0 <= k < plans@.len() implies plan_staged(
                    #[trigger] plans@[k],
                    all[src[k]],
                    vertices.staged(),
                    vertices.handles(),
                    vcap,
                    indices.staged(),
                    indices.handles(),
                    icap,
                ) by {
                    if k < plans_old.len() {
                        assert(plans@[k] == plans_old[k]);
                        assert(src[k] == src_old[k]);
                        assert(plan_staged(plans_old[k], all[src_old[k]], vs, vh, vcap, is, ih, icap));
                        let p = plans_old[k];
                        let d = all[src_old[k]];
                        let vkept = kept_len(
                            vcap,
                            d.vertices@.len(),
                            d.shader.spec_vertices_bytes_per_element(),
                        );
                        assert(staged_at(vs, vh, p.vertices, d.vertices@.take(vkept as int)));
                        assert(staged_at(
                            vertices.staged(),
                            vertices.handles(),
                            p.vertices,
                            d.vertices@.take(vkept as int),
                        ));
                        if p.indices is Some {
                            let ib = p.indices.unwrap();
                            let bytes = choose|bytes: Seq<u8>|
                                {
                                    &&& u16_bytes(bytes, d.indices.unwrap()@)
                                    &&& ib.2 == ib.1 + kept_len(icap, bytes.len(), 2)
                                    &&& #[trigger] staged_at(
                                        is,
                                        ih,
                                        ib,
                                        bytes.take(kept_len(icap, bytes.len(), 2) as int),
                                    )
                                };
                            assert(staged_at(
                                indices.staged(),
                                indices.handles(),
                                ib,
                                bytes.take(kept_len(icap, bytes.len(), 2) as int),
                            ));
                        }
                    }
                }
                assert forall|j: int|
                    0 <= j < i + 1 && draw_is_complete(#[trigger] all[j], binds_len as nat)
                        && !src.contains(j) implies creation_failed(
                    all[j],
                    create_vertex_buffer,
                    create_index_buffer,
                    vcap,
                    icap,
                ) by {
                    if j < i {
                        if src_old.contains(j) {
                            let k = choose|k: int| 0 <= k < src_old.len() && src_old[k] == j;
                            assert(src[k] == j);
                        }
                    } else {
                        if r is Some {
                            assert(src[src.len() - 1] == j);
                        }
                    }
                }
                assert forall|k: int| 0 <= k < src.len() implies #[trigger] src[k] < i + 1 by {
                    if k < src_old.len() {
                        assert(src[k] == src_old[k]);
                    }
                }
                assert forall|k: int, l: int| 0 <= k < l < src.len() implies src[k] < src[l] by {
                    if l < src_old.len() {
                        assert(src[k] == src_old[k]);
                        assert(src[l] == src_old[l]);
                    } else {
                        assert(src[k] == src_old[k]);
                        assert(src_old[k] < i);
                    }
                }
            }
            i = i + 1;
        }
        proof {
            assert(self@.draws =~= Seq::<SpineDraw<T, S>>::empty());
            assert(all == old(self)@.draws);
            assert(plans_follow(
                plans@,
                old(self)@.draws,
                binds_len as nat,
                src,
                old(vertices).capacity(),
                old(indices).capacity(),
            ));
            assert(unplanned_failed(
                old(self)@.draws,
                binds_len as nat,
                src,
                create_vertex_buffer,
                create_index_buffer,
                old(vertices).capacity(),
                old(indices).capacity(),
                old(self)@.draws.len() as int,
            ));
            assert(plans_staged(
                plans@,
                old(self)@.draws,
                src,
                vertices.staged(),
                vertices.handles(),
                old(vertices).capacity(),
                indices.staged(),
                indices.handles(),
                old(indices).capacity(),
            ));
        }
        plans
    }

    /// Keeps a bind group made for this frame's draws.
    pub fn push_bind_group(&mut self, bind_group: G)
        ensures
            final(self)@ == (RendererView {
                bind_groups: old(self)@.bind_groups.push(bind_group),
                ..old(self)@
            }),
    {
        self.bind_groups.push(bind_group);
    }

    /// Adds a draw object to this frame's draw list.
    pub fn push_draw_obj(&mut self, obj: O)
        ensures
            final(self)@ == (RendererView { drawobjs: old(self)@.drawobjs.push(obj), ..old(self)@ }),
    {
        self.drawobjs.push(obj);
    }

    /// The draw list of this frame.
    pub fn draw_objs(&self) -> (r: &Vec<O>)
        ensures
            r@ == self@.drawobjs,
    {
        &self.drawobjs
    }
}

/// A planned draw reaches the GPU: when the vertex and index staging
/// buffers hold a plan's data (as [`RendererAsync::drawlist_plan`] leaves
/// them) and are then uploaded, the vertex upload writes, to a clone of
/// the plan's vertex buffer, bytes that hold the draw's vertex bytes (cut
/// to whole vertices that fit one buffer) at the plan's vertex range; and
/// the index upload writes, to a clone of the plan's index buffer, bytes
/// that hold the draw's indices, in the machine's byte order and cut
/// likewise, at the plan's index range. Ranges that are empty are left
/// out.
pub proof fn lemma_planned_draw_uploaded<B: Clone, T, S>(
    p: DrawPlan<B, T, S>,
    d: SpineDraw<T, S>,
    vstaged: Seq<Seq<u8>>,
    vhandles: Seq<B>,
    vcap: nat,
    istaged: Seq<Seq<u8>>,
    ihandles: Seq<B>,
    icap: nat,
    vwrites: Seq<(B, Vec<u8>)>,
    iwrites: Seq<(B, Vec<u8>)>,
)
    requires
        plan_staged(p, d, vstaged, vhandles, vcap, istaged, ihandles, icap),
        writes_match(vwrites, vhandles, vstaged, nonempty_indices(vstaged, vstaged.len() as int), false),
        writes_match(iwrites, ihandles, istaged, nonempty_indices(istaged, istaged.len() as int), true),
    ensures
        p.vertices.1 < p.vertices.2 ==> exists|j: int, t: int|
            #![trigger vwrites[j], vhandles[t]]
            {
                &&& 0 <= j < vwrites.len()
                &&& 0 <= t < vhandles.len()
                &&& cloned(vhandles[t], p.vertices.0)
                &&& cloned(vhandles[t], vwrites[j].0)
                &&& vwrites[j].1@.subrange(p.vertices.1 as int, p.vertices.2 as int) == d.vertices@.take(
                    kept_len(vcap, d.vertices@.len(), d.shader.spec_vertices_bytes_per_element())
                        as int,
                )
            },
        p.indices is Some && p.indices.unwrap().1 < p.indices.unwrap().2 ==> exists|
            j: int,
            t: int,
            bytes: Seq<u8>,
        |
            #![trigger iwrites[j], ihandles[t], u16_bytes(bytes, d.indices.unwrap()@)]
            {
                &&& 0 <= j < iwrites.len()
                &&& 0 <= t < ihandles.len()
                &&& cloned(ihandles[t], p.indices.unwrap().0)
                &&& cloned(ihandles[t], iwrites[j].0)
                &&& u16_bytes(bytes, d.indices.unwrap()@)
                &&& iwrites[j].1@.subrange(
                    p.indices.unwrap().1 as int,
                    p.indices.unwrap().2 as int,
                ) == bytes.take(kept_len(icap, bytes.len(), 2) as int)
            },
{
    let vkept = kept_len(vcap, d.vertices@.len(), d.shader.spec_vertices_bytes_per_element());
    if p.vertices.1 < p.vertices.2 {
        lemma_staged_then_uploaded(
            vstaged,
            vhandles,
            p.vertices,
            d.vertices@.take(vkept as int),
            vwrites,
            false,
        );
    }
    if p.indices is Some && p.indices.unwrap().1 < p.indices.unwrap().2 {
        let ib = p.indices.unwrap();
        let bytes = choose|bytes: Seq<u8>|
            {
                &&& u16_bytes(bytes, d.indices.unwrap()@)
                &&& ib.2 == ib.1 + kept_len(icap, bytes.len(), 2)
                &&& #[trigger] staged_at(
                    istaged,
                    ihandles,
                    ib,
                    bytes.take(kept_len(icap, bytes.len(), 2) as int),
                )
            };
        lemma_staged_then_uploaded(
            istaged,
            ihandles,
            ib,
            bytes.take(kept_len(icap, bytes.len(), 2) as int),
            iwrites,
            true,
        );
        let (j, t) = choose|j: int, t: int|
            #![trigger iwrites[j], ihandles[t]]
            {
                &&& 0 <= j < iwrites.len()
                &&& 0 <= t < ihandles.len()
                &&& cloned(ihandles[t], ib.0)
                &&& cloned(ihandles[t], iwrites[j].0)
                &&& ib.2 <= iwrites[j].1@.len()
                &&& iwrites[j].1@.subrange(ib.1 as int, ib.2 as int) == bytes.take(
                    kept_len(icap, bytes.len(), 2) as int,
                )
            };
        assert(u16_bytes(bytes, d.indices.unwrap()@));
    }
}

/// What a recorded draw uses: the renderer's shader, and a pipeline whose
/// fixed-function state is the same for every shader (a filled,
/// counter-clockwise triangle list, no culling, no strip index format, one
/// sample with all bits of the mask, no alpha to coverage) with one color
/// target in the renderer's format that writes all four channels and
/// blends with the renderer's blending exactly when blending is on. A draw
/// is recorded exactly when a shader is set, some uniform parameters exist,
/// and, unless the shader is the colored one, a texture or a sampler is set.
pub proof fn lemma_draw_records<T: Clone, S: Clone, G, O>(
    v: RendererView<T, S, G, O>,
    w: RendererView<T, S, G, O>,
    vertices: Seq<u8>,
    indices: Option<Vec<u16>>,
    vertices_len: u32,
    indices_len: u32,
)
    requires
        RendererAsync::<T, S, G, O>::spec_draw_post(v, w, vertices, indices, vertices_len, indices_len),
    ensures
        RendererAsync::<T, S, G, O>::spec_draw_accepted(v) <==> {
            &&& v.shader is Some
            &&& v.uniform_param.len() > 0
            &&& v.shader != Some(KeySpineShader::Colored) ==> v.texture is Some || v.sampler is Some
        },
        !RendererAsync::<T, S, G, O>::spec_draw_accepted(v) ==> w == v,
        RendererAsync::<T, S, G, O>::spec_draw_accepted(v) ==> {
            let d = w.draws.last();
            &&& w.draws.len() == v.draws.len() + 1
            &&& w.draws.drop_last() == v.draws
            &&& d.shader == v.shader.unwrap()
            &&& d.bind_key == v.uniform_param.len() - 1
            &&& d.vertices@ == vertices
            &&& d.indices == indices
            &&& d.pipeline.key_shader == v.shader.unwrap()
            &&& d.pipeline.key_state.primitive == (PrimitiveState {
                topology: PrimitiveTopology::TriangleList,
                strip_index_format: None,
                front_face: FrontFace::Ccw,
                cull_mode: None,
                unclipped_depth: false,
                polygon_mode: PolygonMode::Fill,
                conservative: false,
            })
            &&& d.pipeline.key_state.multisample == (MultisampleState {
                count: 1,
                mask: 0xffff_ffff_ffff_ffff,
                alpha_to_coverage_enabled: false,
            })
            &&& d.pipeline.key_state.target_state == Some(
                ColorTargetState {
                    format: v.target_format,
                    blend: if v.enableblend {
                        Some(v.blend)
                    } else {
                        None
                    },
                    write_mask: 15,
                },
            )
        },
{
    if RendererAsync::<T, S, G, O>::spec_draw_accepted(v) {
        assert(w.draws.drop_last() =~= v.draws);
    }
}

/// Draws recorded with the same renderer state but different shaders get
/// pipeline keys that differ only in the shader: their fixed-function
/// states are equal.
pub proof fn lemma_draw_key_state_ignores_shader(
    a: KeySpineShader,
    b: KeySpineShader,
    format: TextureFormat,
    blend: Option<BlendState>,
)
    ensures
        spec_draw_pipeline_key(a, format, blend).key_state == spec_draw_pipeline_key(
            b,
            format,
            blend,
        ).key_state,
        spec_draw_pipeline_key(a, format, blend).key_shader == a,
{
}

} // verus!
