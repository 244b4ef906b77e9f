//! The materials of the batching renderer: which vertex buffers, uniforms
//! and textures each Spine shader reads, and where.
use vstd::prelude::*;

use crate::shaders::EShader;
use crate::spine_render::gpu_state::{EAddressMode, EFilterMode};

verus! {

/// The vertex buffers of a Spine mesh.
#[derive(Debug, Clone, Copy, PartialEq, Eq, PartialOrd, Ord, Hash, Structural)]
pub enum SpineVertexBufferKindKey {
    Vertices,
    Indices,
}

/// The blocks of data of a Spine material.
#[derive(Debug, Clone, Copy, PartialEq, Eq, PartialOrd, Ord, Hash, Structural)]
pub enum SpineMaterialBlockKindKey {
    Vertices,
    UniformSet0,
    MVPMatrix,
    MaskFlag,
    Visibility,
    Texture,
}

/// Format of the values of a vertex buffer (the Spine materials read
/// floats).
#[derive(Debug, Clone, Copy, PartialEq, Eq, Hash, Structural)]
pub enum EVertexDataFormat {
    F32,
}

/// Format of a uniform.
#[derive(Debug, Clone, Copy, PartialEq, Eq, Hash, Structural)]
pub enum EUniformDataFormat {
    Float2,
    Float4,
    Mat4,
}

/// A vertex buffer of a material: its slot, value format, kind and values
/// per vertex.
#[derive(Debug, Clone, Copy, PartialEq, Eq, Hash, Structural)]
pub struct GeometryBufferDesc {
    pub slot: u32,
    pub format: EVertexDataFormat,
    pub kind: SpineVertexBufferKindKey,
    pub size_per_vertex: u32,
}

/// A uniform of a material: its kind, format and binding.
#[derive(Debug, Clone, Copy, PartialEq, Eq, Hash, Structural)]
pub struct MaterialUniformDesc {
    pub kind: SpineMaterialBlockKindKey,
    pub format: EUniformDataFormat,
    pub bind: u32,
}

/// A texture of a material: its kind, binding and the binding of its
/// sampler.
#[derive(Debug, Clone, Copy, PartialEq, Eq, Hash, Structural)]
pub struct MaterialTextureDesc {
    pub kind: SpineMaterialBlockKindKey,
    pub bind: u32,
    pub bind_sampler: u32,
}

/// The sampler of a material texture.
#[derive(Debug, Clone, Copy, PartialEq, Eq, Hash, Structural)]
pub struct MaterialTextureSampler {
    pub address_mode: EAddressMode,
    pub filter_mode: EFilterMode,
}

/// Usages of the uniform buffer of a material.
#[derive(Debug, Clone, Copy, PartialEq, Eq, Hash, Structural)]
pub struct BufferUsages {
    pub uniform: bool,
    pub copy_dst: bool,
}

/// How a material is set up: its vertex buffers, the usages of its uniform
/// buffer, its uniforms, its textures, and the shader whose uniform layout
/// it uses.
pub struct MaterialInit {
    pub vertex_buffers: Vec<GeometryBufferDesc>,
    pub buffer_usage: BufferUsages,
    pub uniforms: Vec<MaterialUniformDesc>,
    pub textures: Vec<MaterialTextureDesc>,
    pub layout_of: EShader,
}

/// A texture to bind to a material: where, with which sampler, and which.
pub struct TextureBinding<TID> {
    pub desc: MaterialTextureDesc,
    pub sampler: MaterialTextureSampler,
    pub key: TID,
}

/// The vertices of a mesh with `size` floats per vertex.
pub open spec fn spec_vertices_desc(size: u32) -> GeometryBufferDesc {
    GeometryBufferDesc {
        slot: 0,
        format: EVertexDataFormat::F32,
        kind: SpineVertexBufferKindKey::Vertices,
        size_per_vertex: size,
    }
}

/// The model-view-projection matrix.
pub open spec fn spec_mvp_matrix_desc() -> MaterialUniformDesc {
    MaterialUniformDesc {
        kind: SpineMaterialBlockKindKey::MVPMatrix,
        format: EUniformDataFormat::Mat4,
        bind: 0,
    }
}

/// The mask flag.
pub open spec fn spec_mask_flag_desc() -> MaterialUniformDesc {
    MaterialUniformDesc {
        kind: SpineMaterialBlockKindKey::MaskFlag,
        format: EUniformDataFormat::Float4,
        bind: 0,
    }
}

/// The visibility.
pub open spec fn spec_visibility_desc() -> MaterialUniformDesc {
    MaterialUniformDesc {
        kind: SpineMaterialBlockKindKey::Visibility,
        format: EUniformDataFormat::Float2,
        bind: 0,
    }
}

/// The texture, at binding 1 with its sampler at 0.
pub open spec fn spec_texture_desc() -> MaterialTextureDesc {
    MaterialTextureDesc { kind: SpineMaterialBlockKindKey::Texture, bind: 1, bind_sampler: 0 }
}

/// The sampler of material textures: clamped, linear.
pub open spec fn spec_texture_sampler() -> MaterialTextureSampler {
    MaterialTextureSampler {
        address_mode: EAddressMode::ClampToEdge,
        filter_mode: EFilterMode::Linear,
    }
}

/// Uniform buffers of materials are uniform buffers that can be written.
pub open spec fn spec_uniform_buffer_usage() -> BufferUsages {
    BufferUsages { uniform: true, copy_dst: true }
}

/// The texture binding of a textured material when its shader has a
/// texture layout; none otherwise.
pub open spec fn spec_texture_binding<TID>(texture_layout_present: bool, key: TID) -> Option<
    TextureBinding<TID>,
> {
    if texture_layout_present {
        Some(TextureBinding { desc: spec_texture_desc(), sampler: spec_texture_sampler(), key })
    } else {
        None
    }
}

fn vertices_desc(size: u32) -> (r: GeometryBufferDesc)
    ensures
        r == spec_vertices_desc(size),
{
    GeometryBufferDesc {
        slot: 0,
        format: EVertexDataFormat::F32,
        kind: SpineVertexBufferKindKey::Vertices,
        size_per_vertex: size,
    }
}

fn texture_binding<TID>(texture_layout_present: bool, key: TID) -> (r: Option<TextureBinding<TID>>)
    ensures
        r == spec_texture_binding(texture_layout_present, key),
{
    if texture_layout_present {
        Some(
            TextureBinding {
                desc: SpineMaterialColoredTextured::texture_desc(),
                sampler: MaterialTextureSampler {
                    address_mode: EAddressMode::ClampToEdge,
                    filter_mode: EFilterMode::Linear,
                },
                key,
            },
        )
    } else {
        None
    }
}

/// The material of the colored shader.
pub struct SpineMaterialColored {}

impl SpineMaterialColored {
    /// The model-view-projection matrix uniform.
    pub fn mvp_matrix_desc() -> (r: MaterialUniformDesc)
        ensures
            r == spec_mvp_matrix_desc(),
    {
        MaterialUniformDesc {
            kind: SpineMaterialBlockKindKey::MVPMatrix,
            format: EUniformDataFormat::Mat4,
            bind: 0,
        }
    }

    /// The mask flag uniform.
    pub fn mask_flag_desc() -> (r: MaterialUniformDesc)
        ensures
            r == spec_mask_flag_desc(),
    {
        MaterialUniformDesc {
            kind: SpineMaterialBlockKindKey::MaskFlag,
            format: EUniformDataFormat::Float4,
            bind: 0,
        }
    }

    /// Set-up: 8 floats per vertex, the matrix and the mask flag, no
    /// texture, with the colored shader's uniform layout.
    pub fn init() -> (r: MaterialInit)
        ensures
            r.vertex_buffers@ == seq![spec_vertices_desc(8)],
            r.buffer_usage == spec_uniform_buffer_usage(),
            r.uniforms@ == seq![spec_mvp_matrix_desc(), spec_mask_flag_desc()],
            r.textures@ == Seq::<MaterialTextureDesc>::empty(),
            r.layout_of == EShader::Colored,
    {
        let r = MaterialInit {
            vertex_buffers: vec![vertices_desc(8)],
            buffer_usage: BufferUsages { uniform: true, copy_dst: true },
            uniforms: vec![Self::mvp_matrix_desc(), Self::mask_flag_desc()],
            textures: Vec::new(),
            layout_of: EShader::Colored,
        };
        assert(r.vertex_buffers@ =~= seq![spec_vertices_desc(8)]);
        assert(r.uniforms@ =~= seq![spec_mvp_matrix_desc(), spec_mask_flag_desc()]);
        r
    }
}

/// The material of the colored textured shader.
pub struct SpineMaterialColoredTextured {}

impl SpineMaterialColoredTextured {
    /// The visibility uniform.
    pub fn visibility_desc() -> (r: MaterialUniformDesc)
        ensures
            r == spec_visibility_desc(),
    {
        MaterialUniformDesc {
            kind: SpineMaterialBlockKindKey::Visibility,
            format: EUniformDataFormat::Float2,
            bind: 0,
        }
    }

    /// The texture.
    pub fn texture_desc() -> (r: MaterialTextureDesc)
        ensures
            r == spec_texture_desc(),
    {
        MaterialTextureDesc { kind: SpineMaterialBlockKindKey::Texture, bind: 1, bind_sampler: 0 }
    }

    /// Set-up: 8 floats per vertex, the matrix, the mask flag and the
    /// visibility, one texture, with the colored textured shader's uniform
    /// layout.
    pub fn init() -> (r: MaterialInit)
        ensures
            r.vertex_buffers@ == seq![spec_vertices_desc(8)],
            r.buffer_usage == spec_uniform_buffer_usage(),
            r.uniforms@ == seq![spec_mvp_matrix_desc(), spec_mask_flag_desc(), spec_visibility_desc()],
            r.textures@ == seq![spec_texture_desc()],
            r.layout_of == EShader::ColoredTextured,
    {
        let r = MaterialInit {
            vertex_buffers: vec![vertices_desc(8)],
            buffer_usage: BufferUsages { uniform: true, copy_dst: true },
            uniforms: vec![
                SpineMaterialColored::mvp_matrix_desc(),
                SpineMaterialColored::mask_flag_desc(),
                Self::visibility_desc(),
            ],
            textures: vec![Self::texture_desc()],
            layout_of: EShader::ColoredTextured,
        };
        assert(r.vertex_buffers@ =~= seq![spec_vertices_desc(8)]);
        assert(r.uniforms@ =~= seq![spec_mvp_matrix_desc(), spec_mask_flag_desc(), spec_visibility_desc()]);
        assert(r.textures@ =~= seq![spec_texture_desc()]);
        r
    }

    /// The texture `key` to bind, clamped and linear, when the colored
    /// textured shader has a texture layout; none otherwise.
    pub fn texture<TID>(texture_layout_present: bool, key: TID) -> (r: Option<TextureBinding<TID>>)
        ensures
            r == spec_texture_binding(texture_layout_present, key),
    {
        texture_binding(texture_layout_present, key)
    }
}

/// The material of the two-colored textured shader.
pub struct SpineMaterialColoredTexturedTwo {}

impl SpineMaterialColoredTexturedTwo {
    /// Set-up: 12 floats per vertex, the matrix, the mask flag and the
    /// visibility, one texture, with the two-colored textured shader's
    /// uniform layout.
    pub fn init() -> (r: MaterialInit)
        ensures
            r.vertex_buffers@ == seq![spec_vertices_desc(12)],
            r.buffer_usage == spec_uniform_buffer_usage(),
            r.uniforms@ == seq![spec_mvp_matrix_desc(), spec_mask_flag_desc(), spec_visibility_desc()],
            r.textures@ == seq![spec_texture_desc()],
            r.layout_of == EShader::TwoColoredTextured,
    {
        let r = MaterialInit {
            vertex_buffers: vec![vertices_desc(12)],
            buffer_usage: BufferUsages { uniform: true, copy_dst: true },
            uniforms: vec![
                SpineMaterialColored::mvp_matrix_desc(),
                SpineMaterialColored::mask_flag_desc(),
                SpineMaterialColoredTextured::visibility_desc(),
            ],
            textures: vec![SpineMaterialColoredTextured::texture_desc()],
            layout_of: EShader::TwoColoredTextured,
        };
        assert(r.vertex_buffers@ =~= seq![spec_vertices_desc(12)]);
        assert(r.uniforms@ =~= seq![spec_mvp_matrix_desc(), spec_mask_flag_desc(), spec_visibility_desc()]);
        assert(r.textures@ =~= seq![spec_texture_desc()]);
        r
    }

    /// The texture `key` to bind, clamped and linear, when the two-colored
    /// textured shader has a texture layout; none otherwise.
    pub fn texture<TID>(texture_layout_present: bool, key: TID) -> (r: Option<TextureBinding<TID>>)
        ensures
            r == spec_texture_binding(texture_layout_present, key),
    {
        texture_binding(texture_layout_present, key)
    }
}

/// The texture to bind to the material of `shader`: none for the colored
/// shader; otherwise as the shader's material says, given whether that
/// shader has a texture layout.
pub fn material_texture<TID>(shader: EShader, texture_layout_present: bool, key: TID) -> (r: Option<
    TextureBinding<TID>,
>)
    ensures
        shader == EShader::Colored ==> r is None,
        shader != EShader::Colored ==> r == spec_texture_binding(texture_layout_present, key),
{
    match shader {
        EShader::Colored => None,
        EShader::ColoredTextured => SpineMaterialColoredTextured::texture(texture_layout_present, key),
        EShader::TwoColoredTextured => SpineMaterialColoredTexturedTwo::texture(
            texture_layout_present,
            key,
        ),
    }
}

} // verus!
