use pi_spine_rs::spine_render::gpu_state::{BlendFactor, TextureFormat};
use pi_spine_rs::spine_render::renderer::BindGroupSource;
use pi_spine_rs::spine_render::shaders::KeySpineShader;
use pi_spine_rs::spine_render::vertex_buffer::{SpineIndicesBufferAllocator, SpineVertexBufferAllocator};
use pi_spine_rs::spine_render::{
    sampler_desc, ActionListSpine, ActionSpine, ESpineCommand, KeySpineRenderer, SpineAssetConfig,
    SpineCommandEffect, SpineRenderContext, FORMAT,
};

type Ctx = SpineRenderContext<u32, u32, (), ()>;
type Cmd = ESpineCommand<u32, u32, u16>;

#[test]
fn create_off_screen_renderer() {
    let mut ctx = Ctx::new();
    let id = KeySpineRenderer(9);
    let eff = ctx.apply::<u16>(Cmd::Create(id, "spine".to_string(), Some((300, 200)), TextureFormat::Bgra8Unorm));
    assert!(matches!(eff, SpineCommandEffect::AddNode(k, ref name, false) if k == id && name == "spine"));
    let p = ctx.get(id).unwrap();
    assert_eq!(p.width(), 300);
    assert_eq!(p.height(), 200);
    assert!(!p.to_screen());
    assert_eq!(p.render().target_format, FORMAT);
}

#[test]
fn create_on_screen_renderer() {
    let mut ctx = Ctx::new();
    let id = KeySpineRenderer(1);
    let eff = ctx.apply::<u16>(Cmd::Create(id, "screen".to_string(), None, TextureFormat::Bgra8UnormSrgb));
    assert!(matches!(eff, SpineCommandEffect::AddNode(_, _, true)));
    let p = ctx.get(id).unwrap();
    assert_eq!((p.width(), p.height()), (128, 128));
    assert!(p.to_screen());
    assert_eq!(p.render().target_format, TextureFormat::Bgra8UnormSrgb);
}

#[test]
fn create_renderer_defaults() {
    let mut ctx = Ctx::new();
    ctx.create_renderer(KeySpineRenderer(3), true);
    let p = ctx.get(KeySpineRenderer(3)).unwrap();
    assert_eq!((p.width(), p.height(), p.to_screen()), (128, 128, true));
    assert_eq!(p.render().target_format, TextureFormat::Bgra8Unorm);
}

#[test]
fn dispose_removes_the_renderer() {
    let mut ctx = Ctx::new();
    let id = KeySpineRenderer(2);
    ctx.apply::<u16>(Cmd::Create(id, "a".to_string(), None, TextureFormat::Rgba8Unorm));
    let eff = ctx.apply::<u16>(Cmd::Dispose(id));
    assert!(matches!(eff, SpineCommandEffect::RemoveNode(k) if k == id));
    assert!(ctx.get(id).is_none());
    assert!(ctx.keys().is_empty());
}

#[test]
fn render_size_changes_the_target_size() {
    let mut ctx = Ctx::new();
    let id = KeySpineRenderer(4);
    ctx.apply::<u16>(Cmd::Create(id, "a".to_string(), Some((10, 10)), TextureFormat::Rgba8Unorm));
    ctx.apply::<u16>(Cmd::RenderSize(id, 640, 480));
    let p = ctx.get(id).unwrap();
    assert_eq!((p.width(), p.height()), (640, 480));
}

#[test]
fn commands_for_missing_renderers_change_nothing() {
    let mut ctx = Ctx::new();
    let eff = ctx.apply::<u16>(Cmd::Shader(KeySpineRenderer(5), Some(KeySpineShader::Colored)));
    assert!(matches!(eff, SpineCommandEffect::Nothing));
    let eff = ctx.apply::<u16>(Cmd::RenderSize(KeySpineRenderer(5), 1, 1));
    assert!(matches!(eff, SpineCommandEffect::Nothing));
    assert!(ctx.get(KeySpineRenderer(5)).is_none());
}

#[test]
fn texture_load_and_graph_are_left_to_the_application() {
    let mut ctx = Ctx::new();
    let eff = ctx.apply::<u16>(Cmd::TextureLoad("a.png".to_string()));
    assert!(matches!(eff, SpineCommandEffect::LoadTexture(ref p) if p == "a.png"));
    let eff = ctx.apply::<u16>(Cmd::Graph(KeySpineRenderer(8), 77));
    assert!(matches!(eff, SpineCommandEffect::AttachNode(k, 77) if k == KeySpineRenderer(8)));
}

#[test]
fn commands_drive_the_recorder() {
    let mut ctx = Ctx::new();
    let id = KeySpineRenderer(6);
    ctx.apply::<u16>(Cmd::Create(id, "a".to_string(), None, TextureFormat::Rgba8Unorm));
    ctx.apply::<u16>(Cmd::Shader(id, Some(KeySpineShader::ColoredTextured)));
    ctx.apply::<u16>(Cmd::Texture(id, 11, 21, sampler_desc(), 31));
    ctx.apply::<u16>(Cmd::UseTexture(id, Some(21), Some(31)));
    ctx.apply::<u16>(Cmd::BlendMode(id, BlendFactor::One, BlendFactor::OneMinusSrcAlpha));
    ctx.apply::<u16>(Cmd::Uniform(id, vec![0; 96]));
    ctx.apply::<u16>(Cmd::Draw(id, vec![0; 64], vec![0, 1, 2], 2, 3));
    let mut vertices = SpineVertexBufferAllocator::<u32>::new(1024);
    let mut indices = SpineIndicesBufferAllocator::<u32>::new(1024);
    let vb = |_v: Vec<u8>| Some(1u32);
    let ib = |_v: Vec<u8>| Some(2u32);
    let p = ctx.get_mut(id).unwrap();
    let r = p.render_mut();
    let binds = r.take_uniform_params().len();
    let plans = r.drawlist_plan(binds, &mut vertices, &mut indices, &vb, &ib);
    assert_eq!(plans.len(), 1);
    assert!(matches!(plans[0].bind_group, BindGroupSource::Textured(21, 31)));
    let blend = plans[0].pipeline.key_state.target_state.unwrap().blend.unwrap();
    assert_eq!(blend.color.src_factor, BlendFactor::One);
    assert_eq!(plans[0].vertices, (1, 0, 64));
    assert_eq!(plans[0].indices, Some((2, 0, 6)));
}

#[test]
fn reset_command_drops_recorded_draws() {
    let mut ctx = Ctx::new();
    let id = KeySpineRenderer(7);
    ctx.apply::<u16>(Cmd::Create(id, "a".to_string(), None, TextureFormat::Rgba8Unorm));
    ctx.apply::<u16>(Cmd::Shader(id, Some(KeySpineShader::Colored)));
    ctx.apply::<u16>(Cmd::Uniform(id, vec![0; 96]));
    ctx.apply::<u16>(Cmd::Draw(id, vec![0; 24], vec![0, 1, 2], 1, 3));
    ctx.apply::<u16>(Cmd::Reset(id));
    let mut vertices = SpineVertexBufferAllocator::<u32>::new(64);
    let mut indices = SpineIndicesBufferAllocator::<u32>::new(64);
    let vb = |_v: Vec<u8>| Some(1u32);
    let r = ctx.get_mut(id).unwrap().render_mut();
    assert!(r.drawlist_plan(1, &mut vertices, &mut indices, &vb, &vb).is_empty());
}

#[test]
fn keys_lists_every_renderer_once() {
    let mut ctx = Ctx::new();
    for k in [3u64, 1, 2] {
        ctx.create_renderer(KeySpineRenderer(k), false);
    }
    ctx.create_renderer(KeySpineRenderer(1), true);
    let mut keys: Vec<u64> = ctx.keys().iter().map(|k| k.0).collect();
    keys.sort();
    assert_eq!(keys, vec![1, 2, 3]);
}

#[test]
fn action_spine_queues_commands() {
    let mut cmds: ActionListSpine<u32, u32, u16> = Vec::new();
    let id = KeySpineRenderer(1);
    ActionSpine::spine_uniform(&mut cmds, id, &[1, 2]);
    ActionSpine::spine_shader(&mut cmds, id, KeySpineShader::Colored);
    ActionSpine::spine_use_texture(&mut cmds, id, 4, 5);
    ActionSpine::spine_draw(&mut cmds, id, &[9], &[0, 1], 3, 2);
    ActionSpine::spine_reset(&mut cmds, id);
    ActionSpine::spine_blend(&mut cmds, id, false);
    ActionSpine::spine_blend_mode(&mut cmds, id, BlendFactor::Zero, BlendFactor::One);
    assert_eq!(cmds.len(), 7);
    assert!(matches!(&cmds[0], ESpineCommand::Uniform(k, v) if *k == id && v == &vec![1u8, 2]));
    assert!(matches!(&cmds[1], ESpineCommand::Shader(_, Some(KeySpineShader::Colored))));
    assert!(matches!(&cmds[2], ESpineCommand::UseTexture(_, Some(4), Some(5))));
    assert!(matches!(&cmds[3], ESpineCommand::Draw(_, v, i, 3, 2) if v == &vec![9u8] && i == &vec![0u16, 1]));
    assert!(matches!(&cmds[4], ESpineCommand::Reset(_)));
    assert!(matches!(&cmds[5], ESpineCommand::Blend(_, false)));
    assert!(matches!(&cmds[6], ESpineCommand::BlendMode(_, BlendFactor::Zero, BlendFactor::One)));
}

#[test]
fn action_spine_creates_and_disposes() {
    let mut ctx = Ctx::new();
    ActionSpine::create_spine_renderer(KeySpineRenderer(1), Some((64, 32)), &mut ctx, TextureFormat::Bgra8Unorm);
    assert_eq!(ctx.get(KeySpineRenderer(1)).unwrap().width(), 64);
    ActionSpine::dispose_spine_renderer(KeySpineRenderer(1), &mut ctx);
    assert!(ctx.get(KeySpineRenderer(1)).is_none());
}

#[test]
fn asset_config_defaults() {
    let c = SpineAssetConfig::default();
    assert_eq!(c.vertex_buffer, (10 * 1024 * 1024, 60 * 1024));
    assert_eq!(c.bind_buffer, (1024 * 1024, 60 * 1024));
    assert_eq!(c.bind_group, (100 * 1024, 60 * 1024));
}

#[test]
fn on_screen_renderer_keeps_any_color_format() {
    let mut ctx = Ctx::new();
    let id = KeySpineRenderer(5);
    ctx.apply::<u16>(Cmd::Create(id, "hdr".to_string(), None, TextureFormat::Rg11b10Float));
    assert_eq!(ctx.get(id).unwrap().render().target_format, TextureFormat::Rg11b10Float);
}
