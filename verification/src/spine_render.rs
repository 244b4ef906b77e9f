//! The Spine renderer proper: the renderers of a world, the commands that
//! drive them, and the staging buffers and recorders they use.
use vstd::prelude::*;

use pi_hash::XHashMap;
use vstd::std_specs::hash::spec_keys_iter;
use vstd::std_specs::iter::IteratorSpec;

pub mod bind_groups;
pub mod binds;
pub mod gpu_state;
pub mod renderer;
pub mod shaders;
pub mod vertex_buffer;

use crate::spine_render::gpu_state::{
    BlendComponent, BlendFactor, BlendOperation, BlendState, EAddressMode, EAnisotropyClamp, EFilterMode, SamplerDesc, TextureFormat,
};
use crate::spine_render::renderer::{RendererAsync, RendererView};
use crate::spine_render::shaders::KeySpineShader;
use crate::xmap::{xmap_get, xmap_get_mut, xmap_insert, xmap_keys, xmap_new, xmap_remove};

verus! {

/// Format of the targets of renderers that draw off screen.
pub const FORMAT: TextureFormat = TextureFormat::Rgba8Unorm;

/// The sampler of Spine textures: repeating, linear, nearest mipmap.
pub open spec fn spec_sampler_desc() -> SamplerDesc {
    SamplerDesc {
        address_mode_u: EAddressMode::Repeat,
        address_mode_v: EAddressMode::Repeat,
        address_mode_w: EAddressMode::Repeat,
        mag_filter: EFilterMode::Linear,
        min_filter: EFilterMode::Linear,
        mipmap_filter: EFilterMode::Nearest,
        compare: None,
        anisotropy_clamp: EAnisotropyClamp::One,
        border_color: None,
    }
}

/// The sampler of Spine textures (see [`spec_sampler_desc`]).
pub fn sampler_desc() -> (r: SamplerDesc)
    ensures
        r == spec_sampler_desc(),
{
    SamplerDesc {
        address_mode_u: EAddressMode::Repeat,
        address_mode_v: EAddressMode::Repeat,
        address_mode_w: EAddressMode::Repeat,
        mag_filter: EFilterMode::Linear,
        min_filter: EFilterMode::Linear,
        mipmap_filter: EFilterMode::Nearest,
        compare: None,
        anisotropy_clamp: EAnisotropyClamp::One,
        border_color: None,
    }
}

/// Identifies a renderer: the bits of the entity that owns it.
#[derive(Debug, Clone, Copy, PartialEq, Eq, Hash, Structural)]
pub struct KeySpineRenderer(pub u64);

/// A renderer with its target size and whether it draws to the screen.
pub struct SpineRenderNodeParam<T, S, G, O> {
    render: RendererAsync<T, S, G, O>,
    width: u32,
    height: u32,
    to_screen: bool,
}

/// The abstract state of a [`SpineRenderNodeParam`].
pub struct NodeParamView<T, S, G, O> {
    pub render: RendererView<T, S, G, O>,
    pub width: u32,
    pub height: u32,
    pub to_screen: bool,
}

impl<T, S, G, O> View for SpineRenderNodeParam<T, S, G, O> {
    type V = NodeParamView<T, S, G, O>;

    closed spec fn view(&self) -> NodeParamView<T, S, G, O> {
        NodeParamView {
            render: self.render@,
            width: self.width,
            height: self.height,
            to_screen: self.to_screen,
        }
    }
}

/// The state of a renderer just made, drawing to `format`.
pub open spec fn spec_new_renderer<T, S, G, O>(format: TextureFormat) -> RendererView<T, S, G, O> {
    RendererView {
        bind_groups: Seq::empty(),
        draws: Seq::empty(),
        drawobjs: Seq::empty(),
        shader: None,
        blend: crate::spine_render::gpu_state::spec_blend_for(
            BlendFactor::SrcAlpha,
            BlendFactor::OneMinusSrcAlpha,
        ),
        enableblend: true,
        textures: Map::empty(),
        samplers: Map::empty(),
        uniform_param: Seq::empty(),
        texture: None,
        sampler: None,
        target_format: format,
    }
}

impl<T: Clone, S: Clone, G, O> SpineRenderNodeParam<T, S, G, O> {
    /// The renderer.
    pub fn render(&self) -> (r: &RendererAsync<T, S, G, O>)
        ensures
            r@ == self@.render,
    {
        &self.render
    }

    /// Width of the renderer's target.
    pub fn width(&self) -> (r: u32)
        ensures
            r == self@.width,
    {
        self.width
    }

    /// Height of the renderer's target.
    pub fn height(&self) -> (r: u32)
        ensures
            r == self@.height,
    {
        self.height
    }

    /// Whether the renderer draws to the screen.
    pub fn to_screen(&self) -> (r: bool)
        ensures
            r == self@.to_screen,
    {
        self.to_screen
    }

    /// The renderer, to change in place.
    pub fn render_mut(&mut self) -> (r: &mut RendererAsync<T, S, G, O>)
        ensures
            r@ == old(self)@.render,
            final(self)@ == (NodeParamView { render: final(r)@, ..old(self)@ }),
    {
        &mut self.render
    }
}

/// The renderers of a world, by key.
pub struct SpineRenderContext<T, S, G, O> {
    list: XHashMap<u64, SpineRenderNodeParam<T, S, G, O>>,
}

impl<T, S, G, O> View for SpineRenderContext<T, S, G, O> {
    type V = Map<u64, NodeParamView<T, S, G, O>>;

    closed spec fn view(&self) -> Map<u64, NodeParamView<T, S, G, O>> {
        Map::new(|k: u64| self.list@.contains_key(k), |k: u64| self.list@[k]@)
    }
}

impl<T: Clone, S: Clone, G, O> SpineRenderContext<T, S, G, O> {
    pub fn new() -> (r: Self)
        ensures
            r@ == Map::<u64, NodeParamView<T, S, G, O>>::empty(),
    {
        let r = SpineRenderContext { list: xmap_new() };
        assert(r@ =~= Map::<u64, NodeParamView<T, S, G, O>>::empty());
        r
    }

    /// The renderer of `key`, if there is one.
    pub fn get(&self, key: KeySpineRenderer) -> (r: Option<&SpineRenderNodeParam<T, S, G, O>>)
        ensures
            r is Some == self@.contains_key(key.0),
            r matches Some(p) ==> p@ == self@[key.0],
    {
        xmap_get(&self.list, &key.0)
    }

    /// The keys of all renderers, each once, in no stated order.
    pub fn keys(&self) -> (r: Vec<KeySpineRenderer>)
        ensures
            r@.len() == self@.dom().len(),
            forall|i: int| 0 <= i < r@.len() ==> self@.contains_key(#[trigger] r@[i].0),
            forall|k: u64| self@.contains_key(k) ==> r@.contains(KeySpineRenderer(k)),
    {
        let mut r: Vec<KeySpineRenderer> = Vec::new();
        for k in it: xmap_keys(&self.list)
            invariant
                it.seq() == spec_keys_iter(&self.list).remaining(),
                r@.len() == it.index(),
                forall|j: int| 0 <= j < it.index() ==> (#[trigger] r@[j]).0 == *it.seq()[j],
        {
            r.push(KeySpineRenderer(*k));
        }
        proof {
            broadcast use vstd::std_specs::hash::axiom_spec_keys_iter;
            let raw = spec_keys_iter(&self.list).remaining().unref();
            assert(r@.len() == raw.len());
            assert(self@.dom() =~= self.list@.dom());
            assert(raw.to_set() == self.list@.dom());
            assert(raw.len() == self.list@.dom().len());
            raw.unique_seq_to_set();
            assert forall|i: int| 0 <= i < r@.len() implies self@.contains_key(#[trigger] r@[i].0) by {
                assert(raw[i] == r@[i].0);
                assert(raw.to_set().contains(raw[i]));
            }
            assert forall|k: u64| self@.contains_key(k) implies r@.contains(KeySpineRenderer(k)) by {
                assert(raw.to_set().contains(k));
                let j = choose|j: int| 0 <= j < raw.len() && raw[j] == k;
                assert(r@[j] == KeySpineRenderer(k));
            }
        }
        r
    }

    /// The renderer of `key`, if there is one, to change in place.
    pub fn get_mut(&mut self, key: KeySpineRenderer) -> (r: Option<
        &mut SpineRenderNodeParam<T, S, G, O>,
    >)
        ensures
            r is Some == old(self)@.contains_key(key.0),
            r is None ==> final(self)@ == old(self)@,
            r matches Some(p) ==> p@ == old(self)@[key.0] && final(self)@ == old(self)@.insert(
                key.0,
                final(p)@,
            ),
    {
        xmap_get_mut(&mut self.list, &key.0)
    }

    /// Makes a new renderer under `key`, 128 by 128, drawing to
    /// `Bgra8Unorm`, replacing any renderer there.
    pub fn create_renderer(&mut self, key: KeySpineRenderer, to_screen: bool)
        ensures
            final(self)@ == old(self)@.insert(
                key.0,
                NodeParamView {
                    render: spec_new_renderer(TextureFormat::Bgra8Unorm),
                    width: 128,
                    height: 128,
                    to_screen,
                },
            ),
    {
        let render = SpineRenderNodeParam {
            render: RendererAsync::new(),
            width: 128,
            height: 128,
            to_screen,
        };
        xmap_insert(&mut self.list, key.0, render);
        assert(self@ =~= old(self)@.insert(
            key.0,
            NodeParamView {
                render: spec_new_renderer(TextureFormat::Bgra8Unorm),
                width: 128,
                height: 128,
                to_screen,
            },
        ));
    }
}

/// A command to the renderers, queued by the application and applied once
/// a frame. Vertex and uniform data travel as bytes.
pub enum ESpineCommand<T, S, N> {
    /// Make a renderer under a graph node of this name, off screen at this
    /// size, or on the screen in this format.
    Create(KeySpineRenderer, String, Option<(u32, u32)>, TextureFormat),
    Dispose(KeySpineRenderer),
    /// Load the texture at this path.
    TextureLoad(String),
    /// Keep a texture under its key.
    TextureRecord(KeySpineRenderer, u64, T),
    SamplerRecord(KeySpineRenderer, SamplerDesc, S),
    RemoveTextureRecord(KeySpineRenderer, u64),
    Reset(KeySpineRenderer),
    RenderSize(KeySpineRenderer, u32, u32),
    Shader(KeySpineRenderer, Option<KeySpineShader>),
    UseTexture(KeySpineRenderer, Option<T>, Option<S>),
    Texture(KeySpineRenderer, u64, T, SamplerDesc, S),
    Blend(KeySpineRenderer, bool),
    BlendMode(KeySpineRenderer, BlendFactor, BlendFactor),
    Uniform(KeySpineRenderer, Vec<u8>),
    Draw(KeySpineRenderer, Vec<u8>, Vec<u16>, u32, u32),
    /// Attach this graph node to the renderer's entity.
    Graph(KeySpineRenderer, N),
}

/// The queue of commands.
pub type ActionListSpine<T, S, N> = Vec<ESpineCommand<T, S, N>>;

/// What the application still has to do for a command, beyond the
/// renderers.
pub enum SpineCommandEffect<N> {
    Nothing,
    /// Add a render graph node with this name for the renderer (drawing to
    /// the screen or not) and attach it to the renderer's entity.
    AddNode(KeySpineRenderer, String, bool),
    /// Remove the renderer's graph node, if its entity has one, and
    /// despawn the entity.
    RemoveNode(KeySpineRenderer),
    /// Queue the loading of the texture at this path.
    LoadTexture(String),
    /// Attach the graph node to the renderer's entity.
    AttachNode(KeySpineRenderer, N),
}

/// The renderer made for a `Create` command: off screen in [`FORMAT`] at
/// the given size, or on the screen in the given format at 128 by 128.
pub open spec fn spec_created_param<T, S, G, O>(
    rendersize: Option<(u32, u32)>,
    final_render_format: TextureFormat,
) -> NodeParamView<T, S, G, O> {
    match rendersize {
        Some((w, h)) => NodeParamView {
            render: spec_new_renderer(TextureFormat::Rgba8Unorm),
            width: w,
            height: h,
            to_screen: false,
        },
        None => NodeParamView {
            render: spec_new_renderer(final_render_format),
            width: 128,
            height: 128,
            to_screen: true,
        },
    }
}

/// Entry points that change the renderers or queue commands for them.
pub struct ActionSpine {}

impl ActionSpine {
    /// Makes the renderer of `id`: off screen at `rendersize` in
    /// [`FORMAT`], or, without a size, on the screen in
    /// `final_render_format`.
    pub fn create_spine_renderer<T: Clone, S: Clone, G, O>(
        id: KeySpineRenderer,
        rendersize: Option<(u32, u32)>,
        ctx: &mut SpineRenderContext<T, S, G, O>,
        final_render_format: TextureFormat,
    )
        ensures
            final(ctx)@ == old(ctx)@.insert(id.0, spec_created_param(rendersize, final_render_format)),
    {
        let mut render = RendererAsync::new();
        let (width, height) = match rendersize {
            Some(rendersize) => {
                render.set_target_format(TextureFormat::Rgba8Unorm);
                rendersize
            },
            None => {
                render.set_target_format(final_render_format);
                (128, 128)
            },
        };
        let param = SpineRenderNodeParam { render, width, height, to_screen: rendersize.is_none() };
        xmap_insert(&mut ctx.list, id.0, param);
        proof {
            let want = spec_created_param::<T, S, G, O>(rendersize, final_render_format);
            assert(ctx@[id.0].render =~= want.render);
            assert(ctx@ =~= old(ctx)@.insert(id.0, want));
        }
    }

    /// Drops the renderer of `id`.
    pub fn dispose_spine_renderer<T: Clone, S: Clone, G, O>(
        id_renderer: KeySpineRenderer,
        ctx: &mut SpineRenderContext<T, S, G, O>,
    )
        ensures
            final(ctx)@ == old(ctx)@.remove(id_renderer.0),
    {
        xmap_remove(&mut ctx.list, &id_renderer.0);
        assert(ctx@ =~= old(ctx)@.remove(id_renderer.0));
    }

    /// Queues uniform parameters (as bytes) for the renderer.
    pub fn spine_uniform<T, S, N>(
        cmds: &mut ActionListSpine<T, S, N>,
        id_renderer: KeySpineRenderer,
        value: &[u8],
    )
        ensures
            final(cmds)@.len() == old(cmds)@.len() + 1,
            final(cmds)@.drop_last() == old(cmds)@,
            final(cmds)@.last() matches ESpineCommand::Uniform(id, v) && id == id_renderer && v@
                == value@,
    {
        cmds.push(ESpineCommand::Uniform(id_renderer, vstd::slice::slice_to_vec(value)));
        assert(cmds@.drop_last() =~= old(cmds)@);
    }

    /// Queues a shader change for the renderer.
    pub fn spine_shader<T, S, N>(
        cmds: &mut ActionListSpine<T, S, N>,
        id_renderer: KeySpineRenderer,
        value: KeySpineShader,
    )
        ensures
            final(cmds)@ == old(cmds)@.push(ESpineCommand::Shader(id_renderer, Some(value))),
    {
        cmds.push(ESpineCommand::Shader(id_renderer, Some(value)));
    }

    /// Queues a texture and sampler change for the renderer.
    pub fn spine_use_texture<T, S, N>(
        cmds: &mut ActionListSpine<T, S, N>,
        id_renderer: KeySpineRenderer,
        value: T,
        sampler: S,
    )
        ensures
            final(cmds)@ == old(cmds)@.push(
                ESpineCommand::UseTexture(id_renderer, Some(value), Some(sampler)),
            ),
    {
        cmds.push(ESpineCommand::UseTexture(id_renderer, Some(value), Some(sampler)));
    }

    /// Queues a draw (vertices as bytes) for the renderer.
    pub fn spine_draw<T, S, N>(
        cmds: &mut ActionListSpine<T, S, N>,
        id_renderer: KeySpineRenderer,
        vertices: &[u8],
        indices: &[u16],
        vlen: u32,
        ilen: u32,
    )
        ensures
            final(cmds)@.len() == old(cmds)@.len() + 1,
            final(cmds)@.drop_last() == old(cmds)@,
            final(cmds)@.last() matches ESpineCommand::Draw(id, v, i, vl, il) && id == id_renderer
                && v@ == vertices@ && i@ == indices@ && vl == vlen && il == ilen,
    {
        cmds.push(
            ESpineCommand::Draw(
                id_renderer,
                vstd::slice::slice_to_vec(vertices),
                vstd::slice::slice_to_vec(indices),
                vlen,
                ilen,
            ),
        );
        assert(cmds@.drop_last() =~= old(cmds)@);
    }

    /// Queues a reset of the renderer.
    pub fn spine_reset<T, S, N>(cmds: &mut ActionListSpine<T, S, N>, id_renderer: KeySpineRenderer)
        ensures
            final(cmds)@ == old(cmds)@.push(ESpineCommand::Reset(id_renderer)),
    {
        cmds.push(ESpineCommand::Reset(id_renderer));
    }

    /// Queues turning blending on or off for the renderer.
    pub fn spine_blend<T, S, N>(
        cmds: &mut ActionListSpine<T, S, N>,
        id_renderer: KeySpineRenderer,
        value: bool,
    )
        ensures
            final(cmds)@ == old(cmds)@.push(ESpineCommand::Blend(id_renderer, value)),
    {
        cmds.push(ESpineCommand::Blend(id_renderer, value));
    }

    /// Queues a change of blend factors for the renderer.
    pub fn spine_blend_mode<T, S, N>(
        cmds: &mut ActionListSpine<T, S, N>,
        id_renderer: KeySpineRenderer,
        src: BlendFactor,
        dst: BlendFactor,
    )
        ensures
            final(cmds)@ == old(cmds)@.push(ESpineCommand::BlendMode(id_renderer, src, dst)),
    {
        cmds.push(ESpineCommand::BlendMode(id_renderer, src, dst));
    }
}

/// The outcome of applying `cmd` to the renderers `v`, giving `w` and the
/// effect `eff` left to the application. Commands for a renderer that does
/// not exist change nothing.
pub open spec fn spec_apply_post<T: Clone, S: Clone, G, O, N>(
    v: Map<u64, NodeParamView<T, S, G, O>>,
    w: Map<u64, NodeParamView<T, S, G, O>>,
    cmd: ESpineCommand<T, S, N>,
    eff: SpineCommandEffect<N>,
) -> bool {
    match cmd {
        ESpineCommand::Create(id, name, rendersize, format) => {
            &&& w == v.insert(id.0, spec_created_param(rendersize, format))
            &&& eff == SpineCommandEffect::<N>::AddNode(id, name, rendersize is None)
        },
        ESpineCommand::Dispose(id) => {
            &&& w == v.remove(id.0)
            &&& eff == SpineCommandEffect::<N>::RemoveNode(id)
        },
        ESpineCommand::TextureLoad(path) => {
            &&& w == v
            &&& eff == SpineCommandEffect::<N>::LoadTexture(path)
        },
        ESpineCommand::Graph(id, node) => {
            &&& w == v
            &&& eff == SpineCommandEffect::AttachNode(id, node)
        },
        ESpineCommand::RenderSize(id, width, height) => {
            &&& eff is Nothing
            &&& !v.contains_key(id.0) ==> w == v
            &&& v.contains_key(id.0) ==> w == v.insert(id.0, NodeParamView { width, height, ..v[id.0] })
        },
        _ => {
            let id = spec_command_target(cmd).0;
            &&& eff is Nothing
            &&& !v.contains_key(id) ==> w == v
            &&& v.contains_key(id) ==> {
                &&& w.dom() == v.dom()
                &&& forall|k: u64| #[trigger] w.contains_key(k) && k != id ==> w[k] == v[k]
                &&& w[id].width == v[id].width
                &&& w[id].height == v[id].height
                &&& w[id].to_screen == v[id].to_screen
                &&& spec_render_post(v[id].render, w[id].render, cmd)
            }
        },
    }
}

/// The outcome on a renderer's state, from `r` to `q`, of a command for
/// the renderer.
pub open spec fn spec_render_post<T: Clone, S: Clone, G, O, N>(
    r: RendererView<T, S, G, O>,
    q: RendererView<T, S, G, O>,
    cmd: ESpineCommand<T, S, N>,
) -> bool {
    match cmd {
        ESpineCommand::TextureRecord(_, key, t) => q == (RendererView {
            textures: r.textures.insert(key, t),
            ..r
        }),
        ESpineCommand::SamplerRecord(_, desc, smp) => q == (RendererView {
            samplers: r.samplers.insert(desc.spec_key() as u64, smp),
            ..r
        }),
        ESpineCommand::RemoveTextureRecord(_, key) => q == (RendererView {
            textures: r.textures.remove(key),
            ..r
        }),
        ESpineCommand::Reset(_) => q == (RendererView {
            bind_groups: Seq::empty(),
            draws: Seq::empty(),
            drawobjs: Seq::empty(),
            ..r
        }),
        ESpineCommand::Shader(_, shader) => q == (RendererView { shader, ..r }),
        ESpineCommand::UseTexture(_, texture, sampler) => q == (RendererView {
            texture,
            sampler,
            ..r
        }),
        ESpineCommand::Texture(_, key, t, desc, smp) => q == (RendererView {
            textures: r.textures.insert(key, t),
            samplers: r.samplers.insert(desc.spec_key() as u64, smp),
            ..r
        }),
        ESpineCommand::Blend(_, flag) => q == (RendererView { enableblend: flag, ..r }),
        ESpineCommand::BlendMode(_, src, dst) => q == (RendererView {
            blend: crate::spine_render::gpu_state::spec_blend_for(src, dst),
            ..r
        }),
        ESpineCommand::Uniform(_, bytes) => q == (RendererView {
            uniform_param: r.uniform_param.push(bytes@),
            ..r
        }),
        ESpineCommand::Draw(_, vertices, indices, vlen, ilen) => RendererAsync::<
            T,
            S,
            G,
            O,
        >::spec_draw_post(r, q, vertices@, Some(indices), vlen, ilen),
        _ => q == r,
    }
}

/// The renderer that a command is for (any, for commands that are not for
/// a renderer).
pub open spec fn spec_command_target<T, S, N>(cmd: ESpineCommand<T, S, N>) -> KeySpineRenderer {
    match cmd {
        ESpineCommand::Create(id, _, _, _) => id,
        ESpineCommand::Dispose(id) => id,
        ESpineCommand::TextureLoad(_) => KeySpineRenderer(0),
        ESpineCommand::TextureRecord(id, _, _) => id,
        ESpineCommand::SamplerRecord(id, _, _) => id,
        ESpineCommand::RemoveTextureRecord(id, _) => id,
        ESpineCommand::Reset(id) => id,
        ESpineCommand::RenderSize(id, _, _) => id,
        ESpineCommand::Shader(id, _) => id,
        ESpineCommand::UseTexture(id, _, _) => id,
        ESpineCommand::Texture(id, _, _, _, _) => id,
        ESpineCommand::Blend(id, _) => id,
        ESpineCommand::BlendMode(id, _, _) => id,
        ESpineCommand::Uniform(id, _) => id,
        ESpineCommand::Draw(id, _, _, _, _) => id,
        ESpineCommand::Graph(id, _) => id,
    }
}

impl<T: Clone, S: Clone, G, O> SpineRenderContext<T, S, G, O> {
    /// Applies one command to the renderers and says what is left for the
    /// application to do (see [`spec_apply_post`]).
    pub fn apply<N>(&mut self, cmd: ESpineCommand<T, S, N>) -> (eff: SpineCommandEffect<N>)
        ensures
            spec_apply_post(old(self)@, final(self)@, cmd, eff),
    {
        let ghost c = cmd;
        match cmd {
            ESpineCommand::Create(id, name, rendersize, format) => {
                ActionSpine::create_spine_renderer(id, rendersize, self, format);
                let to_screen = rendersize.is_none();
                SpineCommandEffect::AddNode(id, name, to_screen)
            },
            ESpineCommand::Dispose(id) => {
                ActionSpine::dispose_spine_renderer(id, self);
                SpineCommandEffect::RemoveNode(id)
            },
            ESpineCommand::TextureLoad(path) => SpineCommandEffect::LoadTexture(path),
            ESpineCommand::Graph(id, node) => SpineCommandEffect::AttachNode(id, node),
            ESpineCommand::RenderSize(id, width, height) => {
                let ghost old_list = self.list@;
                match xmap_get_mut(&mut self.list, &id.0) {
                    Some(param) => {
                        param.width = width;
                        param.height = height;
                    },
                    None => {},
                }
                proof {
                    if old_list.contains_key(id.0) {
                        assert(self@ =~= old(self)@.insert(
                            id.0,
                            NodeParamView { width, height, ..old(self)@[id.0] },
                        ));
                    } else {
                        assert(self@ =~= old(self)@);
                    }
                }
                SpineCommandEffect::Nothing
            },
            _ => {
                let id = match &cmd {
                    ESpineCommand::TextureRecord(id, _, _) => *id,
                    ESpineCommand::SamplerRecord(id, _, _) => *id,
                    ESpineCommand::RemoveTextureRecord(id, _) => *id,
                    ESpineCommand::Reset(id) => *id,
                    ESpineCommand::Shader(id, _) => *id,
                    ESpineCommand::UseTexture(id, _, _) => *id,
                    ESpineCommand::Texture(id, _, _, _, _) => *id,
                    ESpineCommand::Blend(id, _) => *id,
                    ESpineCommand::BlendMode(id, _, _) => *id,
                    ESpineCommand::Uniform(id, _) => *id,
                    ESpineCommand::Draw(id, _, _, _, _) => *id,
                    _ => KeySpineRenderer(0),
                };
                assert(id == spec_command_target(c));
                let ghost old_list = self.list@;
                match xmap_get_mut(&mut self.list, &id.0) {
                    Some(param) => Self::apply_to_renderer(&mut param.render, cmd),
                    None => {},
                }
                proof {
                    if old_list.contains_key(id.0) {
                        assert(self.list@.dom() =~= old_list.dom());
                        assert(self@.dom() =~= old(self)@.dom());
                        assert forall|k: u64| #[trigger] self@.contains_key(k) && k != id.0 implies self@[k] == old(self)@[k] by {
                            assert(self.list@[k] == old_list[k]);
                        }
                    } else {
                        assert(self@ =~= old(self)@);
                    }
                }
                SpineCommandEffect::Nothing
            },
        }
    }

    fn apply_to_renderer<N>(render: &mut RendererAsync<T, S, G, O>, cmd: ESpineCommand<T, S, N>)
        ensures
            spec_render_post(old(render)@, final(render)@, cmd),
    {
        match cmd {
            ESpineCommand::TextureRecord(_, key, t) => render.record_texture(key, t),
            ESpineCommand::SamplerRecord(_, desc, smp) => render.record_sampler(desc, smp),
            ESpineCommand::RemoveTextureRecord(_, key) => render.remove_texture(key),
            ESpineCommand::Reset(_) => render.reset(),
            ESpineCommand::Shader(_, shader) => render.shader(shader),
            ESpineCommand::UseTexture(_, texture, sampler) => render.texture(texture, sampler),
            ESpineCommand::Texture(_, key, t, desc, smp) => {
                render.record_texture(key, t);
                render.record_sampler(desc, smp);
            },
            ESpineCommand::Blend(_, flag) => render.blend(flag),
            ESpineCommand::BlendMode(_, src, dst) => render.blend_mode(src, dst),
            ESpineCommand::Uniform(_, bytes) => render.uniform(bytes),
            ESpineCommand::Draw(_, vertices, indices, vlen, ilen) => render.draw(
                vertices,
                Some(indices),
                vlen,
                ilen,
            ),
            _ => {},
        }
    }
}

/// Disposing of a renderer just created under a free key leaves the
/// renderers as they were; in between, the new renderer is there, as the
/// `Create` command says.
pub proof fn lemma_create_then_dispose<T: Clone, S: Clone, G, O, N>(
    v: Map<u64, NodeParamView<T, S, G, O>>,
    w: Map<u64, NodeParamView<T, S, G, O>>,
    x: Map<u64, NodeParamView<T, S, G, O>>,
    id: KeySpineRenderer,
    name: String,
    rendersize: Option<(u32, u32)>,
    format: TextureFormat,
    created: SpineCommandEffect<N>,
    disposed: SpineCommandEffect<N>,
)
    requires
        !v.contains_key(id.0),
        spec_apply_post(v, w, ESpineCommand::<T, S, N>::Create(id, name, rendersize, format), created),
        spec_apply_post(w, x, ESpineCommand::<T, S, N>::Dispose(id), disposed),
    ensures
        w.contains_key(id.0),
        w[id.0] == spec_created_param::<T, S, G, O>(rendersize, format),
        x == v,
{
    assert(x =~= v);
}

/// Turning blending on or off (`Blend`) sets the renderer's blending flag
/// to the given value. Applied to renderers that have the renderer `id`,
/// that is its one change: the renderer's other fields and the other
/// renderers stay, and the application has nothing left to do.
pub proof fn lemma_apply_blend<T: Clone, S: Clone, G, O, N>(
    v: Map<u64, NodeParamView<T, S, G, O>>,
    w: Map<u64, NodeParamView<T, S, G, O>>,
    id: KeySpineRenderer,
    flag: bool,
    eff: SpineCommandEffect<N>,
)
    requires
        v.contains_key(id.0),
        spec_apply_post(v, w, ESpineCommand::<T, S, N>::Blend(id, flag), eff),
    ensures
        eff is Nothing,
        w == v.insert(
            id.0,
            NodeParamView {
                render: RendererView {
                    enableblend: flag,
                    ..v[id.0].render
                },
                ..v[id.0]
            },
        ),
{
    assert(w =~= v.insert(id.0, w[id.0]));
}

/// Setting blend factors (`BlendMode`) gives the renderer color blending by
/// the given factors, added, and "over" alpha blending. Applied to
/// renderers that have the renderer `id`, that is its one change: the
/// renderer's other fields and the other renderers stay, and the
/// application has nothing left to do.
pub proof fn lemma_apply_blend_mode<T: Clone, S: Clone, G, O, N>(
    v: Map<u64, NodeParamView<T, S, G, O>>,
    w: Map<u64, NodeParamView<T, S, G, O>>,
    id: KeySpineRenderer,
    src: BlendFactor,
    dst: BlendFactor,
    eff: SpineCommandEffect<N>,
)
    requires
        v.contains_key(id.0),
        spec_apply_post(v, w, ESpineCommand::<T, S, N>::BlendMode(id, src, dst), eff),
    ensures
        eff is Nothing,
        w == v.insert(
            id.0,
            NodeParamView {
                render: RendererView {
                    blend: BlendState {
                        color: BlendComponent {
                            src_factor: src,
                            dst_factor: dst,
                            operation: BlendOperation::Add,
                        },
                        alpha: BlendComponent {
                            src_factor: BlendFactor::One,
                            dst_factor: BlendFactor::OneMinusSrcAlpha,
                            operation: BlendOperation::Add,
                        },
                    },
                    ..v[id.0].render
                },
                ..v[id.0]
            },
        ),
{
    assert(w =~= v.insert(id.0, w[id.0]));
}

/// Setting the shader (`Shader`) gives the renderer that shader. Applied to
/// renderers that have the renderer `id`, that is its one change: the
/// renderer's other fields and the other renderers stay, and the
/// application has nothing left to do.
pub proof fn lemma_apply_shader<T: Clone, S: Clone, G, O, N>(
    v: Map<u64, NodeParamView<T, S, G, O>>,
    w: Map<u64, NodeParamView<T, S, G, O>>,
    id: KeySpineRenderer,
    shader: Option<KeySpineShader>,
    eff: SpineCommandEffect<N>,
)
    requires
        v.contains_key(id.0),
        spec_apply_post(v, w, ESpineCommand::<T, S, N>::Shader(id, shader), eff),
    ensures
        eff is Nothing,
        w == v.insert(
            id.0,
            NodeParamView {
                render: RendererView {
                    shader,
                    ..v[id.0].render
                },
                ..v[id.0]
            },
        ),
{
    assert(w =~= v.insert(id.0, w[id.0]));
}

/// Choosing a texture and a sampler (`UseTexture`) gives the renderer those
/// two. Applied to renderers that have the renderer `id`, that is its one
/// change: the renderer's other fields and the other renderers stay, and
/// the application has nothing left to do.
pub proof fn lemma_apply_use_texture<T: Clone, S: Clone, G, O, N>(
    v: Map<u64, NodeParamView<T, S, G, O>>,
    w: Map<u64, NodeParamView<T, S, G, O>>,
    id: KeySpineRenderer,
    texture: Option<T>,
    sampler: Option<S>,
    eff: SpineCommandEffect<N>,
)
    requires
        v.contains_key(id.0),
        spec_apply_post(v, w, ESpineCommand::<T, S, N>::UseTexture(id, texture, sampler), eff),
    ensures
        eff is Nothing,
        w == v.insert(
            id.0,
            NodeParamView {
                render: RendererView {
                    texture,
                    sampler,
                    ..v[id.0].render
                },
                ..v[id.0]
            },
        ),
{
    assert(w =~= v.insert(id.0, w[id.0]));
}

/// Adding uniform parameters (`Uniform`) appends their bytes to the
/// renderer's parameter sets. Applied to renderers that have the renderer
/// `id`, that is its one change: the renderer's other fields and the other
/// renderers stay, and the application has nothing left to do.
pub proof fn lemma_apply_uniform<T: Clone, S: Clone, G, O, N>(
    v: Map<u64, NodeParamView<T, S, G, O>>,
    w: Map<u64, NodeParamView<T, S, G, O>>,
    id: KeySpineRenderer,
    bytes: Vec<u8>,
    eff: SpineCommandEffect<N>,
)
    requires
        v.contains_key(id.0),
        spec_apply_post(v, w, ESpineCommand::<T, S, N>::Uniform(id, bytes), eff),
    ensures
        eff is Nothing,
        w == v.insert(
            id.0,
            NodeParamView {
                render: RendererView {
                    uniform_param: v[id.0].render.uniform_param.push(bytes@),
                    ..v[id.0].render
                },
                ..v[id.0]
            },
        ),
{
    assert(w =~= v.insert(id.0, w[id.0]));
}

/// Keeping a texture (`TextureRecord`) keeps it under its key. Applied to
/// renderers that have the renderer `id`, that is its one change: the
/// renderer's other fields and the other renderers stay, and the
/// application has nothing left to do.
pub proof fn lemma_apply_texture_record<T: Clone, S: Clone, G, O, N>(
    v: Map<u64, NodeParamView<T, S, G, O>>,
    w: Map<u64, NodeParamView<T, S, G, O>>,
    id: KeySpineRenderer,
    key: u64,
    texture: T,
    eff: SpineCommandEffect<N>,
)
    requires
        v.contains_key(id.0),
        spec_apply_post(v, w, ESpineCommand::<T, S, N>::TextureRecord(id, key, texture), eff),
    ensures
        eff is Nothing,
        w == v.insert(
            id.0,
            NodeParamView {
                render: RendererView {
                    textures: v[id.0].render.textures.insert(key, texture),
                    ..v[id.0].render
                },
                ..v[id.0]
            },
        ),
{
    assert(w =~= v.insert(id.0, w[id.0]));
}

/// Keeping a sampler (`SamplerRecord`) keeps it under the key of its
/// description. Applied to renderers that have the renderer `id`, that is
/// its one change: the renderer's other fields and the other renderers
/// stay, and the application has nothing left to do.
pub proof fn lemma_apply_sampler_record<T: Clone, S: Clone, G, O, N>(
    v: Map<u64, NodeParamView<T, S, G, O>>,
    w: Map<u64, NodeParamView<T, S, G, O>>,
    id: KeySpineRenderer,
    desc: SamplerDesc,
    sampler: S,
    eff: SpineCommandEffect<N>,
)
    requires
        v.contains_key(id.0),
        spec_apply_post(v, w, ESpineCommand::<T, S, N>::SamplerRecord(id, desc, sampler), eff),
    ensures
        eff is Nothing,
        w == v.insert(
            id.0,
            NodeParamView {
                render: RendererView {
                    samplers: v[id.0].render.samplers.insert(desc.spec_key() as u64, sampler),
                    ..v[id.0].render
                },
                ..v[id.0]
            },
        ),
{
    assert(w =~= v.insert(id.0, w[id.0]));
}

/// Removing a texture record (`RemoveTextureRecord`) drops its key. Applied
/// to renderers that have the renderer `id`, that is its one change: the
/// renderer's other fields and the other renderers stay, and the
/// application has nothing left to do.
pub proof fn lemma_apply_remove_texture<T: Clone, S: Clone, G, O, N>(
    v: Map<u64, NodeParamView<T, S, G, O>>,
    w: Map<u64, NodeParamView<T, S, G, O>>,
    id: KeySpineRenderer,
    key: u64,
    eff: SpineCommandEffect<N>,
)
    requires
        v.contains_key(id.0),
        spec_apply_post(v, w, ESpineCommand::<T, S, N>::RemoveTextureRecord(id, key), eff),
    ensures
        eff is Nothing,
        w == v.insert(
            id.0,
            NodeParamView {
                render: RendererView {
                    textures: v[id.0].render.textures.remove(key),
                    ..v[id.0].render
                },
                ..v[id.0]
            },
        ),
{
    assert(w =~= v.insert(id.0, w[id.0]));
}

/// Resetting (`Reset`) forgets the draws, bind groups and draw objects.
/// Applied to renderers that have the renderer `id`, that is its one
/// change: the renderer's other fields and the other renderers stay, and
/// the application has nothing left to do.
pub proof fn lemma_apply_reset<T: Clone, S: Clone, G, O, N>(
    v: Map<u64, NodeParamView<T, S, G, O>>,
    w: Map<u64, NodeParamView<T, S, G, O>>,
    id: KeySpineRenderer,
    eff: SpineCommandEffect<N>,
)
    requires
        v.contains_key(id.0),
        spec_apply_post(v, w, ESpineCommand::<T, S, N>::Reset(id), eff),
    ensures
        eff is Nothing,
        w == v.insert(
            id.0,
            NodeParamView {
                render: RendererView {
                    bind_groups: Seq::empty(),
                    draws: Seq::empty(),
                    drawobjs: Seq::empty(),
                    ..v[id.0].render
                },
                ..v[id.0]
            },
        ),
{
    assert(w =~= v.insert(id.0, w[id.0]));
}

/// Creating a renderer (`Create`) puts a new one under its key, replacing
/// any renderer there and leaving the others: off screen, at the given
/// size, drawing to `Rgba8Unorm`, when a size is given; on the screen, 128
/// by 128, drawing to the given format, otherwise. The new renderer has
/// nothing recorded, no shader, texture or sampler, and blending on with
/// "source alpha over" factors. The application is left to add a graph node
/// of the given name.
pub proof fn lemma_apply_create<T: Clone, S: Clone, G, O, N>(
    v: Map<u64, NodeParamView<T, S, G, O>>,
    w: Map<u64, NodeParamView<T, S, G, O>>,
    id: KeySpineRenderer,
    name: String,
    rendersize: Option<(u32, u32)>,
    format: TextureFormat,
    eff: SpineCommandEffect<N>,
)
    requires
        spec_apply_post(v, w, ESpineCommand::<T, S, N>::Create(id, name, rendersize, format), eff),
    ensures
        eff == SpineCommandEffect::<N>::AddNode(id, name, rendersize is None),
        w.dom() == v.dom().insert(id.0),
        forall|k: u64| #[trigger] v.contains_key(k) && k != id.0 ==> w[k] == v[k],
        w[id.0].to_screen == rendersize is None,
        w[id.0].width == match rendersize {
            Some((width, _)) => width,
            None => 128u32,
        },
        w[id.0].height == match rendersize {
            Some((_, height)) => height,
            None => 128u32,
        },
        w[id.0].render.target_format == match rendersize {
            Some(_) => TextureFormat::Rgba8Unorm,
            None => format,
        },
        w[id.0].render.draws.len() == 0,
        w[id.0].render.bind_groups.len() == 0,
        w[id.0].render.drawobjs.len() == 0,
        w[id.0].render.uniform_param.len() == 0,
        w[id.0].render.textures.dom() == Set::<u64>::empty(),
        w[id.0].render.samplers.dom() == Set::<u64>::empty(),
        w[id.0].render.shader is None,
        w[id.0].render.texture is None,
        w[id.0].render.sampler is None,
        w[id.0].render.enableblend,
        w[id.0].render.blend == (BlendState {
            color: BlendComponent {
                src_factor: BlendFactor::SrcAlpha,
                dst_factor: BlendFactor::OneMinusSrcAlpha,
                operation: BlendOperation::Add,
            },
            alpha: BlendComponent {
                src_factor: BlendFactor::One,
                dst_factor: BlendFactor::OneMinusSrcAlpha,
                operation: BlendOperation::Add,
            },
        }),
{
    assert(w.dom() =~= v.dom().insert(id.0));
}

/// Sizes of the caches of the renderers: (capacity in bytes, timeout in
/// milliseconds) of the vertex buffers, the parameter buffers and the bind
/// groups.
#[derive(Clone, Copy)]
pub struct SpineAssetConfig {
    pub vertex_buffer: (usize, usize),
    pub bind_buffer: (usize, usize),
    pub bind_group: (usize, usize),
}

impl Default for SpineAssetConfig {
    /// 10 MiB of vertex buffers, 1 MiB of parameter buffers and 100 KiB of
    /// bind groups, each with a timeout of 60 × 1024 milliseconds.
    fn default() -> (r: Self)
        ensures
            r.vertex_buffer.0 == 10 * 1024 * 1024,
            r.vertex_buffer.1 == 60 * 1024,
            r.bind_buffer.0 == 1 * 1024 * 1024,
            r.bind_buffer.1 == 60 * 1024,
            r.bind_group.0 == 100 * 1024,
            r.bind_group.1 == 60 * 1024,
    {
        Self {
            vertex_buffer: (10 * 1024 * 1024, 60 * 1024),
            bind_buffer: (1 * 1024 * 1024, 60 * 1024),
            bind_group: (100 * 1024, 60 * 1024),
        }
    }
}

} // verus!
