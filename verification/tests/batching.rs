use std::cell::Cell;

use pi_spine_rs::material::{
    material_texture, BufferUsages, EUniformDataFormat, EVertexDataFormat, GeometryBufferDesc,
    MaterialTextureDesc, MaterialUniformDesc, SpineMaterialBlockKindKey, SpineMaterialColored,
    SpineMaterialColoredTextured, SpineMaterialColoredTexturedTwo, SpineVertexBufferKindKey,
};
use pi_spine_rs::mesh_renderer::{MeshRenderer, MeshRendererPool};
use pi_spine_rs::pipeline::{SpinePipeline, SpinePipelinePool, SpinePipelinePoolSimple};
use pi_spine_rs::polygon_batcher::{BatchStep, PolygonBatcher, VertexAttribute};
use pi_spine_rs::render::{KeySpineRenderer, SpineResource};
use pi_spine_rs::shaders::EShader;
use pi_spine_rs::spine_render::gpu_state::{BlendFactor, EAddressMode, EFilterMode};
use pi_spine_rs::{vec_set, SpineShaderPoolSimple, MAX_VERTICES};

#[test]
fn vec_set_writes_when_it_fits() {
    let mut v = vec![0, 0, 0, 0, 0];
    vec_set(&mut v, &[7, 8], 2);
    assert_eq!(v, vec![0, 0, 7, 8, 0]);
    vec_set(&mut v, &[1, 2], 3);
    assert_eq!(v, vec![0, 0, 7, 1, 2]);
}

#[test]
fn vec_set_ignores_what_does_not_fit() {
    let mut v = vec![1, 2, 3];
    vec_set(&mut v, &[9, 9], 2);
    assert_eq!(v, vec![1, 2, 3]);
    vec_set(&mut v, &[9], usize::MAX);
    assert_eq!(v, vec![1, 2, 3]);
}

#[test]
fn shader_pool_records_shaders() {
    let mut pool: SpineShaderPoolSimple<&str> = SpineShaderPoolSimple::default();
    assert!(pool.colored.is_none());
    pool.record_spine_shader_colored("c");
    pool.record_spine_shader_colored_textured("ct");
    pool.record_spine_shader_colored_textured_two("ct2");
    assert_eq!(*pool.get_spine_shader_colored(), "c");
    assert_eq!(*pool.get_spine_shader_colored_textured(), "ct");
    assert_eq!(*pool.get_spine_shader_colored_textured_two(), "ct2");
}

#[test]
fn materials_declare_their_layouts() {
    let vertices8 = GeometryBufferDesc {
        slot: 0,
        format: EVertexDataFormat::F32,
        kind: SpineVertexBufferKindKey::Vertices,
        size_per_vertex: 8,
    };
    let mvp = MaterialUniformDesc { kind: SpineMaterialBlockKindKey::MVPMatrix, format: EUniformDataFormat::Mat4, bind: 0 };
    let mask = MaterialUniformDesc { kind: SpineMaterialBlockKindKey::MaskFlag, format: EUniformDataFormat::Float4, bind: 0 };
    let vis = MaterialUniformDesc { kind: SpineMaterialBlockKindKey::Visibility, format: EUniformDataFormat::Float2, bind: 0 };
    let tex = MaterialTextureDesc { kind: SpineMaterialBlockKindKey::Texture, bind: 1, bind_sampler: 0 };
    let c = SpineMaterialColored::init();
    assert_eq!(c.vertex_buffers, vec![vertices8]);
    assert_eq!(c.uniforms, vec![mvp, mask]);
    assert!(c.textures.is_empty());
    assert_eq!(c.buffer_usage, BufferUsages { uniform: true, copy_dst: true });
    assert_eq!(c.layout_of, EShader::Colored);
    let ct = SpineMaterialColoredTextured::init();
    assert_eq!(ct.vertex_buffers, vec![vertices8]);
    assert_eq!(ct.uniforms, vec![mvp, mask, vis]);
    assert_eq!(ct.textures, vec![tex]);
    assert_eq!(ct.layout_of, EShader::ColoredTextured);
    let two = SpineMaterialColoredTexturedTwo::init();
    assert_eq!(two.vertex_buffers[0].size_per_vertex, 12);
    assert_eq!(two.uniforms, vec![mvp, mask, vis]);
    assert_eq!(two.textures, vec![tex]);
    assert_eq!(two.layout_of, EShader::TwoColoredTextured);
}

#[test]
fn material_textures() {
    assert!(material_texture(EShader::Colored, true, 5u64).is_none());
    assert!(material_texture(EShader::ColoredTextured, false, 5u64).is_none());
    let b = material_texture(EShader::TwoColoredTextured, true, 5u64).unwrap();
    assert_eq!(b.key, 5);
    assert_eq!(b.desc.bind, 1);
    assert_eq!(b.sampler.address_mode, EAddressMode::ClampToEdge);
    assert_eq!(b.sampler.filter_mode, EFilterMode::Linear);
    assert!(SpineMaterialColoredTextured::texture(true, 1u8).is_some());
    assert!(SpineMaterialColoredTexturedTwo::texture(false, 1u8).is_none());
}

#[test]
fn pipeline_check_creates_once_per_shader_and_key() {
    let made = Cell::new(0);
    let mut pool: SpinePipelinePoolSimple<&str> = SpinePipelinePoolSimple::default();
    let create = |name: &'static str| {
        made.set(made.get() + 1);
        move || name
    };
    assert_eq!(SpinePipeline::check(EShader::Colored, &mut pool, 7, create("a")), 7);
    assert_eq!(SpinePipeline::check(EShader::Colored, &mut pool, 7, || "never"), 7);
    assert_eq!(made.get(), 1);
    assert_eq!(SpinePipeline::get(EShader::Colored, &pool, 7), Some(&"a"));
    assert_eq!(SpinePipeline::get(EShader::ColoredTextured, &pool, 7), None);
    SpinePipeline::check(EShader::TwoColoredTextured, &mut pool, 7, || "b");
    assert_eq!(pool.get_spine_pipeline_colored_textured_two(7), Some(&"b"));
    assert_eq!(pool.get_spine_pipeline_colored(7), Some(&"a"));
    assert_eq!(pool.get_spine_pipeline_colored(8), None);
    pool.record_spine_pipeline_colored_textured(8, "c");
    assert_eq!(SpinePipeline::get(EShader::ColoredTextured, &pool, 8), Some(&"c"));
}

#[test]
fn mesh_renderer_draws_with_its_checked_pipeline() {
    let mut pool: SpinePipelinePoolSimple<u8> = SpinePipelinePoolSimple::default();
    let mut r = MeshRenderer::new("mesh");
    assert_eq!(r.pipeline(&pool), None);
    r.update(EShader::ColoredTextured, BlendFactor::One, BlendFactor::Zero, &mut pool, 3, || 42);
    assert_eq!(r.pipeline(&pool), Some(&42));
    assert_eq!(*r.mesh(), "mesh");
    *r.mesh_mut() = "other";
    assert_eq!(*r.mesh(), "other");
}

#[test]
fn mesh_renderer_pool_reuses_renderers() {
    let made = Cell::new(0);
    let make = || {
        made.set(made.get() + 1);
        made.get()
    };
    let mut pool: MeshRendererPool<i32> = MeshRendererPool::default();
    assert_eq!(pool.insert(make), 0);
    assert_eq!(pool.insert(make), 1);
    assert_eq!(made.get(), 2);
    assert_eq!(pool.active(), 2);
    pool.reset();
    assert_eq!(pool.active(), 0);
    assert_eq!(pool.insert(make), 0);
    assert_eq!(made.get(), 2);
    assert_eq!(*pool.get(0), 1);
    *pool.get_mut(0) = 10;
    assert_eq!(*pool.get(0), 10);
}

#[test]
fn polygon_batcher_setup() {
    let b: PolygonBatcher<u8> = PolygonBatcher::new(true);
    assert_eq!(b.attributes.len(), 4);
    assert_eq!(b.attributes[3], VertexAttribute::Color2);
    assert_eq!(b.elements_per_vertex, 12);
    assert_eq!(b.shader, EShader::ColoredTextured);
    let b: PolygonBatcher<u8> = PolygonBatcher::new(false);
    assert_eq!(b.elements_per_vertex, 8);
    assert_eq!(b.shader, EShader::TwoColoredTextured);
    assert_eq!(b.src_factor, BlendFactor::One);
    assert_eq!(b.dst_factor, BlendFactor::Zero);
    assert!(b.blend.is_none());
}

#[test]
fn polygon_batcher_flushes_on_new_texture_and_on_overflow() {
    let mut pool: SpinePipelinePoolSimple<u8> = SpinePipelinePoolSimple::default();
    let mut b: PolygonBatcher<u8> = PolygonBatcher::new(false);
    b.begin(&mut pool, 1, || 0);
    assert!(b.is_drawing);
    assert_eq!(b.pipeline_key, Some(1));
    assert!(matches!(b.draw(Some(3), 8, 3), BatchStep::Flush));
    assert_eq!(b.last_texture_key, Some(3));
    let limit = MAX_VERTICES as usize * 8;
    assert!(matches!(b.draw(Some(3), limit + 1, 3), BatchStep::Flush));
    assert!(matches!(b.draw(Some(3), 8, MAX_VERTICES as usize * 3 + 1), BatchStep::Flush));
    b.meshes.push(9);
    assert!(matches!(b.draw(Some(3), limit, 3), BatchStep::Write(0)));
    assert_eq!(b.flush(|| 1), None);
    b.vertices_length = 8;
    assert_eq!(b.flush(|| 1), Some(0));
    assert_eq!(b.draw_calls, 1);
    assert_eq!(b.meshes, vec![9, 1]);
    assert_eq!(b.vertices_length, 0);
    b.set_blend_mode(BlendFactor::SrcAlpha, BlendFactor::OneMinusSrcAlpha);
    assert_eq!(b.blend.unwrap().color.src_factor, BlendFactor::SrcAlpha);
    b.indices_length = 3;
    assert_eq!(b.end(), Some(1));
    assert!(!b.is_drawing);
    assert_eq!(b.last_texture_key, None);
    assert_eq!(b.end(), None);
}

#[test]
fn resources_and_keys() {
    let r = SpineResource::new("layouts", 5);
    assert_eq!(r.layouts, "layouts");
    assert_eq!(r.pipelines, 5);
    assert_eq!(KeySpineRenderer(3), KeySpineRenderer(3));
}
