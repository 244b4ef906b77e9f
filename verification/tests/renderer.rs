use pi_spine_rs::spine_render::gpu_state::{
    BlendComponent, BlendFactor, BlendOperation, BlendState, ColorTargetState, FrontFace,
    MultisampleState, PolygonMode, PrimitiveState, PrimitiveTopology, TextureFormat,
};
use pi_spine_rs::spine_render::renderer::{BindGroupSource, DrawPlan, RendererAsync};
use pi_spine_rs::spine_render::shaders::KeySpineShader;
use pi_spine_rs::spine_render::vertex_buffer::{SpineIndicesBufferAllocator, SpineVertexBufferAllocator};

type Renderer = RendererAsync<u32, u32, (), ()>;

struct Staging {
    vertices: SpineVertexBufferAllocator<u32>,
    indices: SpineIndicesBufferAllocator<u32>,
}

fn staging() -> Staging {
    Staging {
        vertices: SpineVertexBufferAllocator::new(1024),
        indices: SpineIndicesBufferAllocator::new(1024),
    }
}

fn plan(r: &mut Renderer, binds: usize, s: &mut Staging) -> Vec<DrawPlan<u32, u32, u32>> {
    let vb = |_v: Vec<u8>| Some(100u32);
    let ib = |_v: Vec<u8>| Some(200u32);
    r.drawlist_plan(binds, &mut s.vertices, &mut s.indices, &vb, &ib)
}

#[test]
fn draw_without_shader_is_ignored() {
    let mut r = Renderer::new();
    r.uniform(vec![0; 96]);
    r.draw(vec![0; 24], Some(vec![0, 1, 2]), 1, 3);
    let mut s = staging();
    assert!(plan(&mut r, 1, &mut s).is_empty());
}

#[test]
fn draw_without_uniforms_is_ignored() {
    let mut r = Renderer::new();
    r.shader(Some(KeySpineShader::Colored));
    r.draw(vec![0; 24], Some(vec![0, 1, 2]), 1, 3);
    let mut s = staging();
    assert!(plan(&mut r, 1, &mut s).is_empty());
}

#[test]
fn textured_draw_without_texture_or_sampler_is_ignored() {
    let mut r = Renderer::new();
    r.shader(Some(KeySpineShader::ColoredTextured));
    r.uniform(vec![0; 96]);
    r.draw(vec![0; 32], Some(vec![0, 1, 2]), 1, 3);
    let mut s = staging();
    assert!(plan(&mut r, 1, &mut s).is_empty());
}

#[test]
fn colored_draw_is_planned_with_the_last_uniforms() {
    let mut r = Renderer::new();
    r.shader(Some(KeySpineShader::Colored));
    r.uniform(vec![1; 96]);
    r.uniform(vec![2; 96]);
    r.draw(vec![7; 48], Some(vec![0, 1, 2]), 2, 3);
    let uniforms = r.take_uniform_params();
    assert_eq!(uniforms, vec![vec![1u8; 96], vec![2u8; 96]]);
    let mut s = staging();
    let plans = plan(&mut r, uniforms.len(), &mut s);
    assert_eq!(plans.len(), 1);
    let p = &plans[0];
    assert_eq!(p.bind_key, 1);
    assert!(matches!(p.bind_group, BindGroupSource::Colored));
    assert_eq!(p.vertices, (100, 0, 48));
    assert_eq!(p.indices, Some((200, 0, 6)));
    assert_eq!(p.vertex_count, 2);
    let key = p.pipeline;
    assert_eq!(key.key_shader, KeySpineShader::Colored);
    assert_eq!(
        key.key_state.primitive,
        PrimitiveState {
            topology: PrimitiveTopology::TriangleList,
            strip_index_format: None,
            front_face: FrontFace::Ccw,
            cull_mode: None,
            unclipped_depth: false,
            polygon_mode: PolygonMode::Fill,
            conservative: false,
        }
    );
    assert_eq!(
        key.key_state.multisample,
        MultisampleState { count: 1, mask: u64::MAX, alpha_to_coverage_enabled: false }
    );
    assert_eq!(
        key.key_state.target_state,
        Some(ColorTargetState {
            format: TextureFormat::Bgra8Unorm,
            blend: Some(BlendState {
                color: BlendComponent {
                    src_factor: BlendFactor::SrcAlpha,
                    dst_factor: BlendFactor::OneMinusSrcAlpha,
                    operation: BlendOperation::Add,
                },
                alpha: BlendComponent {
                    src_factor: BlendFactor::One,
                    dst_factor: BlendFactor::OneMinusSrcAlpha,
                    operation: BlendOperation::Add,
                },
            }),
            write_mask: 15,
        })
    );
}

#[test]
fn blending_off_and_blend_mode_reach_the_pipeline_key() {
    let mut r = Renderer::new();
    r.shader(Some(KeySpineShader::Colored));
    r.uniform(vec![0; 96]);
    r.blend(false);
    r.draw(vec![0; 24], None, 1, 0);
    r.blend(true);
    r.blend_mode(BlendFactor::One, BlendFactor::Zero);
    r.set_target_format(TextureFormat::Rgba8Unorm);
    r.draw(vec![0; 24], None, 1, 0);
    let mut s = staging();
    let plans = plan(&mut r, 1, &mut s);
    assert_eq!(plans.len(), 2);
    assert_eq!(plans[0].pipeline.key_state.target_state.unwrap().blend, None);
    assert_eq!(plans[0].indices, None);
    let second = plans[1].pipeline.key_state.target_state.unwrap();
    assert_eq!(second.format, TextureFormat::Rgba8Unorm);
    assert_eq!(second.blend.unwrap().color.src_factor, BlendFactor::One);
    assert_eq!(second.blend.unwrap().color.dst_factor, BlendFactor::Zero);
    // the second draw follows the first in the staging buffer
    assert_eq!(plans[1].vertices, (100, 24, 48));
}

#[test]
fn textured_draw_needs_both_texture_and_sampler_to_be_planned() {
    let mut r = Renderer::new();
    r.shader(Some(KeySpineShader::TwoColoredTextured));
    r.uniform(vec![0; 96]);
    r.texture(Some(5), None);
    r.draw(vec![0; 48], Some(vec![0, 1, 2]), 1, 3);
    r.texture(Some(5), Some(6));
    r.draw(vec![0; 48], Some(vec![0, 1, 2]), 1, 3);
    let mut s = staging();
    let plans = plan(&mut r, 1, &mut s);
    assert_eq!(plans.len(), 1);
    assert!(matches!(plans[0].bind_group, BindGroupSource::Textured(5, 6)));
    assert_eq!(plans[0].pipeline.key_shader, KeySpineShader::TwoColoredTextured);
}

#[test]
fn draw_without_its_parameter_buffer_is_dropped() {
    let mut r = Renderer::new();
    r.shader(Some(KeySpineShader::Colored));
    r.uniform(vec![0; 96]);
    r.uniform(vec![0; 96]);
    r.draw(vec![0; 24], None, 1, 0);
    let mut s = staging();
    // only one parameter buffer could be made: the draw uses the second
    assert!(plan(&mut r, 1, &mut s).is_empty());
}

#[test]
fn planning_forgets_the_draws() {
    let mut r = Renderer::new();
    r.shader(Some(KeySpineShader::Colored));
    r.uniform(vec![0; 96]);
    r.draw(vec![0; 24], None, 1, 0);
    let mut s = staging();
    assert_eq!(plan(&mut r, 1, &mut s).len(), 1);
    assert!(plan(&mut r, 1, &mut s).is_empty());
}

#[test]
fn reset_forgets_draws_but_keeps_uniforms() {
    let mut r = Renderer::new();
    r.shader(Some(KeySpineShader::Colored));
    r.uniform(vec![3; 96]);
    r.draw(vec![0; 24], None, 1, 0);
    r.push_bind_group(());
    r.push_draw_obj(());
    r.reset();
    assert!(r.draw_objs().is_empty());
    let mut s = staging();
    assert!(plan(&mut r, 1, &mut s).is_empty());
    assert_eq!(r.take_uniform_params(), vec![vec![3u8; 96]]);
    assert!(r.take_uniform_params().is_empty());
}

#[test]
fn failed_vertex_staging_drops_the_draw() {
    let mut r = Renderer::new();
    r.shader(Some(KeySpineShader::Colored));
    r.uniform(vec![0; 96]);
    r.draw(vec![0; 24], None, 1, 0);
    let mut s = staging();
    let vb = |_v: Vec<u8>| None::<u32>;
    let ib = |_v: Vec<u8>| Some(1u32);
    assert!(r.drawlist_plan(1, &mut s.vertices, &mut s.indices, &vb, &ib).is_empty());
}

#[test]
fn draw_objects_are_kept_in_order() {
    let mut r: RendererAsync<u32, u32, u8, u8> = RendererAsync::new();
    r.push_draw_obj(1);
    r.push_draw_obj(2);
    assert_eq!(r.draw_objs(), &vec![1u8, 2u8]);
}

#[test]
fn planned_draws_reach_the_uploaded_bytes() {
    let mut r = Renderer::new();
    r.shader(Some(KeySpineShader::Colored));
    r.uniform(vec![0; 96]);
    let first: Vec<u8> = (0..48).collect();
    let second: Vec<u8> = (100..124).collect();
    r.draw(first.clone(), Some(vec![0, 1, 2]), 2, 3);
    r.draw(second.clone(), Some(vec![2, 1, 0, 258]), 1, 4);
    let mut s = staging();
    let plans = plan(&mut r, 1, &mut s);
    assert_eq!(plans.len(), 2);
    assert_eq!(plans[0].vertices, (100, 0, 48));
    assert_eq!(plans[1].vertices, (100, 48, 72));
    assert_eq!(plans[0].indices, Some((200, 0, 6)));
    assert_eq!(plans[1].indices, Some((200, 6, 14)));

    let vwrites = s.vertices.upload();
    assert_eq!(vwrites.len(), 1);
    assert_eq!(vwrites[0].0, 100);
    assert_eq!(&vwrites[0].1[0..48], &first[..]);
    assert_eq!(&vwrites[0].1[48..72], &second[..]);

    let iwrites = s.indices.upload();
    assert_eq!(iwrites.len(), 1);
    assert_eq!(iwrites[0].0, 200);
    assert_eq!(iwrites[0].1.len(), 16);
    let decoded: Vec<u16> = iwrites[0].1[0..14]
        .chunks(2)
        .map(|b| u16::from_ne_bytes([b[0], b[1]]))
        .collect();
    assert_eq!(decoded, vec![0, 1, 2, 2, 1, 0, 258]);
    assert_eq!(&iwrites[0].1[14..16], &[0, 0]);
}

#[test]
fn a_failed_buffer_drops_only_its_own_draw() {
    let mut r = Renderer::new();
    r.shader(Some(KeySpineShader::Colored));
    r.uniform(vec![0; 96]);
    r.draw(vec![1; 48], None, 2, 0);
    r.draw(vec![100; 24], None, 1, 0);
    r.draw(vec![7; 24], None, 1, 0);
    let mut vertices = SpineVertexBufferAllocator::new(48);
    let mut indices = SpineIndicesBufferAllocator::new(48);
    let vb = |v: Vec<u8>| if v[0] == 100 { None } else { Some(u32::from(v[0])) };
    let ib = |_v: Vec<u8>| Some(200u32);
    let plans = r.drawlist_plan(1, &mut vertices, &mut indices, &vb, &ib);
    assert_eq!(plans.len(), 2);
    assert_eq!(plans[0].vertices, (1, 0, 48));
    assert_eq!(plans[1].vertices, (7, 0, 24));
}
