//! The three Spine shaders: their names, vertex layouts, bind group
//! layouts, and the pools that hold one object per shader.
use vstd::prelude::*;

use crate::spine_render::binds::BindParam;
use crate::spine_render::gpu_state::{
    BindGroupLayoutEntry, BindingType, KeyRenderPipelineState, ShaderStages, VertexAttribute,
    VertexFormat,
};

verus! {

/// The bind group sets of a Spine shader.
#[derive(Debug, Clone, Copy, PartialEq, Eq, Structural)]
pub enum EKeySpineSet {
    Param,
    Texture,
}

/// The Spine shaders: vertex color only, color and one texture, and two
/// colors (tint and dark tint) with one texture.
#[derive(Debug, Clone, Copy, PartialEq, Eq, Hash, Structural)]
pub enum KeySpineShader {
    Colored,
    ColoredTextured,
    TwoColoredTextured,
}

impl KeySpineShader {
    /// Name of the shader.
    pub open spec fn spec_key(self) -> Seq<char> {
        match self {
            KeySpineShader::Colored => "Colored"@,
            KeySpineShader::ColoredTextured => "ColoredTextured"@,
            KeySpineShader::TwoColoredTextured => "TwoColoredTextured"@,
        }
    }

    /// Name of the shader.
    pub fn key(&self) -> (r: String)
        ensures
            r@ == self.spec_key(),
    {
        match self {
            KeySpineShader::Colored => "Colored".to_owned(),
            KeySpineShader::ColoredTextured => "ColoredTextured".to_owned(),
            KeySpineShader::TwoColoredTextured => "TwoColoredTextured".to_owned(),
        }
    }

    /// Bytes of one vertex: position (2 floats), color (4), texture
    /// coordinates (2) when textured, dark color (4) with two colors.
    pub open spec fn spec_vertices_bytes_per_element(self) -> nat {
        match self {
            KeySpineShader::Colored => (2 + 4) * 4,
            KeySpineShader::ColoredTextured => (2 + 4 + 2) * 4,
            KeySpineShader::TwoColoredTextured => (2 + 4 + 2 + 4) * 4,
        }
    }

    /// Bytes of one vertex (see [`KeySpineShader::spec_vertices_bytes_per_element`]).
    pub fn vertices_bytes_per_element(&self) -> (r: u32)
        ensures
            r == self.spec_vertices_bytes_per_element(),
    {
        match self {
            KeySpineShader::Colored => (2 + 4) * 4,
            KeySpineShader::ColoredTextured => (2 + 4 + 2) * 4,
            KeySpineShader::TwoColoredTextured => (2 + 4 + 2 + 4) * 4,
        }
    }

    /// The formats of the vertex attributes, in shader-location order.
    pub open spec fn spec_attribute_formats(self) -> Seq<VertexFormat> {
        match self {
            KeySpineShader::Colored => seq![VertexFormat::Float32x2, VertexFormat::Float32x4],
            KeySpineShader::ColoredTextured => seq![
                VertexFormat::Float32x2,
                VertexFormat::Float32x4,
                VertexFormat::Float32x2,
            ],
            KeySpineShader::TwoColoredTextured => seq![
                VertexFormat::Float32x2,
                VertexFormat::Float32x4,
                VertexFormat::Float32x2,
                VertexFormat::Float32x4,
            ],
        }
    }

    /// The vertex attributes: position, color, then texture coordinates and
    /// dark color where the shader has them.
    pub open spec fn spec_attributes(self) -> Seq<VertexAttribute> {
        match self {
            KeySpineShader::Colored => seq![
                VertexAttribute { format: VertexFormat::Float32x2, offset: 0, shader_location: 0 },
                VertexAttribute { format: VertexFormat::Float32x4, offset: 8, shader_location: 1 },
            ],
            KeySpineShader::ColoredTextured => seq![
                VertexAttribute { format: VertexFormat::Float32x2, offset: 0, shader_location: 0 },
                VertexAttribute { format: VertexFormat::Float32x4, offset: 8, shader_location: 1 },
                VertexAttribute { format: VertexFormat::Float32x2, offset: 24, shader_location: 2 },
            ],
            KeySpineShader::TwoColoredTextured => seq![
                VertexAttribute { format: VertexFormat::Float32x2, offset: 0, shader_location: 0 },
                VertexAttribute { format: VertexFormat::Float32x4, offset: 8, shader_location: 1 },
                VertexAttribute { format: VertexFormat::Float32x2, offset: 24, shader_location: 2 },
                VertexAttribute { format: VertexFormat::Float32x4, offset: 32, shader_location: 3 },
            ],
        }
    }

    /// The vertex attributes (see [`KeySpineShader::spec_attributes`]).
    pub fn attributes(&self) -> (r: Vec<VertexAttribute>)
        ensures
            r@ == self.spec_attributes(),
    {
        match self {
            KeySpineShader::Colored => vec![
                VertexAttribute { format: VertexFormat::Float32x2, offset: 0, shader_location: 0 },
                VertexAttribute { format: VertexFormat::Float32x4, offset: 8, shader_location: 1 },
            ],
            KeySpineShader::ColoredTextured => vec![
                VertexAttribute { format: VertexFormat::Float32x2, offset: 0, shader_location: 0 },
                VertexAttribute { format: VertexFormat::Float32x4, offset: 8, shader_location: 1 },
                VertexAttribute { format: VertexFormat::Float32x2, offset: 24, shader_location: 2 },
            ],
            KeySpineShader::TwoColoredTextured => vec![
                VertexAttribute { format: VertexFormat::Float32x2, offset: 0, shader_location: 0 },
                VertexAttribute { format: VertexFormat::Float32x4, offset: 8, shader_location: 1 },
                VertexAttribute { format: VertexFormat::Float32x2, offset: 24, shader_location: 2 },
                VertexAttribute { format: VertexFormat::Float32x4, offset: 32, shader_location: 3 },
            ],
        }
    }

    /// Whether the shader samples a texture.
    pub open spec fn spec_is_textured(self) -> bool {
        self != KeySpineShader::Colored
    }

    /// The entries of the shader's bind group layout: the parameter buffer,
    /// then, for textured shaders, the texture and its sampler.
    pub open spec fn spec_bind_group_layout_entries(self) -> Seq<BindGroupLayoutEntry> {
        if self.spec_is_textured() {
            seq![
                BindParam::spec_layout_entry(),
                BindGroupLayoutEntry {
                    binding: 1,
                    visibility: ShaderStages::Fragment,
                    ty: BindingType::Texture2d { filterable: true, multisampled: false },
                },
                BindGroupLayoutEntry {
                    binding: 2,
                    visibility: ShaderStages::Fragment,
                    ty: BindingType::Sampler { filtering: true },
                },
            ]
        } else {
            seq![BindParam::spec_layout_entry()]
        }
    }

    /// The entries of the shader's bind group layout (see
    /// [`KeySpineShader::spec_bind_group_layout_entries`]).
    pub fn bind_group_layout_entries(&self) -> (r: Vec<BindGroupLayoutEntry>)
        ensures
            r@ == self.spec_bind_group_layout_entries(),
    {
        match self {
            KeySpineShader::Colored => vec![BindParam::layout_entry()],
            _ => vec![
                BindParam::layout_entry(),
                BindGroupLayoutEntry {
                    binding: 1,
                    visibility: ShaderStages::Fragment,
                    ty: BindingType::Texture2d { filterable: true, multisampled: false },
                },
                BindGroupLayoutEntry {
                    binding: 2,
                    visibility: ShaderStages::Fragment,
                    ty: BindingType::Sampler { filtering: true },
                },
            ],
        }
    }
}

/// Offset of the attribute after the first `k` formats.
pub open spec fn offset_after(formats: Seq<VertexFormat>, k: int) -> nat
    decreases k,
{
    if k <= 0 {
        0
    } else {
        offset_after(formats, k - 1) + formats[k - 1].spec_size()
    }
}

/// The vertex layout of every shader is packed: attribute `i` reads shader
/// location `i`, starts where the one before ends, and the last one ends at
/// the vertex size.
pub proof fn lemma_attributes_tile_vertex(key: KeySpineShader)
    ensures
        key.spec_attributes().len() == key.spec_attribute_formats().len(),
        forall|i: int|
            0 <= i < key.spec_attributes().len() ==> {
                &&& (#[trigger] key.spec_attributes()[i]).shader_location == i
                &&& key.spec_attributes()[i].format == key.spec_attribute_formats()[i]
                &&& key.spec_attributes()[i].offset == offset_after(key.spec_attribute_formats(), i)
            },
        offset_after(key.spec_attribute_formats(), key.spec_attribute_formats().len() as int)
            == key.spec_vertices_bytes_per_element(),
{
    reveal_with_fuel(offset_after, 5);
}

/// The bind group layout of every shader: binding 0 is the parameter
/// buffer, a uniform buffer of 96 bytes without dynamic offset seen by both
/// stages; the shaders other than the colored one add, for the fragment
/// stage, a filterable, single-sampled 2D texture at binding 1 and a
/// filtering sampler at binding 2. Each entry's binding is its index.
pub proof fn lemma_bind_group_layout(key: KeySpineShader)
    ensures
        key.spec_bind_group_layout_entries().len() == if key == KeySpineShader::Colored {
            1nat
        } else {
            3nat
        },
        key.spec_bind_group_layout_entries()[0] == (BindGroupLayoutEntry {
            binding: 0,
            visibility: ShaderStages::VertexFragment,
            ty: BindingType::UniformBuffer { has_dynamic_offset: false, min_binding_size: 96 },
        }),
        key != KeySpineShader::Colored ==> key.spec_bind_group_layout_entries()[1] == (
        BindGroupLayoutEntry {
            binding: 1,
            visibility: ShaderStages::Fragment,
            ty: BindingType::Texture2d { filterable: true, multisampled: false },
        }),
        key != KeySpineShader::Colored ==> key.spec_bind_group_layout_entries()[2] == (
        BindGroupLayoutEntry {
            binding: 2,
            visibility: ShaderStages::Fragment,
            ty: BindingType::Sampler { filtering: true },
        }),
        forall|i: int|
            0 <= i < key.spec_bind_group_layout_entries().len()
                ==> #[trigger] key.spec_bind_group_layout_entries()[i].binding == i,
{
}

/// The vertex of each shader: 24 bytes for the colored one (position and
/// color), 32 for the colored textured one (and texture coordinates), 48
/// for the two-colored one (and a dark color), in 2, 3 and 4 attributes of
/// 2 or 4 floats.
pub proof fn lemma_vertex_layouts()
    ensures
        KeySpineShader::Colored.spec_vertices_bytes_per_element() == 24,
        KeySpineShader::ColoredTextured.spec_vertices_bytes_per_element() == 32,
        KeySpineShader::TwoColoredTextured.spec_vertices_bytes_per_element() == 48,
        KeySpineShader::Colored.spec_attribute_formats() == seq![
            VertexFormat::Float32x2,
            VertexFormat::Float32x4,
        ],
        KeySpineShader::ColoredTextured.spec_attribute_formats() == seq![
            VertexFormat::Float32x2,
            VertexFormat::Float32x4,
            VertexFormat::Float32x2,
        ],
        KeySpineShader::TwoColoredTextured.spec_attribute_formats() == seq![
            VertexFormat::Float32x2,
            VertexFormat::Float32x4,
            VertexFormat::Float32x2,
            VertexFormat::Float32x4,
        ],
{
}

/// One object per Spine shader.
pub struct SingleSpineShaderPool<S> {
    pub colored: S,
    pub colored_textured: S,
    pub two_colored_textured: S,
}

impl<S> SingleSpineShaderPool<S> {
    /// The object of `key`'s shader.
    pub open spec fn spec_shader(&self, key: KeySpineShader) -> S {
        match key {
            KeySpineShader::Colored => self.colored,
            KeySpineShader::ColoredTextured => self.colored_textured,
            KeySpineShader::TwoColoredTextured => self.two_colored_textured,
        }
    }

    /// The object of `key`'s shader.
    pub fn shader(&self, key: &KeySpineShader) -> (r: &S)
        ensures
            *r == self.spec_shader(*key),
    {
        match key {
            KeySpineShader::Colored => &self.colored,
            KeySpineShader::ColoredTextured => &self.colored_textured,
            KeySpineShader::TwoColoredTextured => &self.two_colored_textured,
        }
    }
}

/// One bind group layout per Spine shader.
pub struct SingleSpineBindGroupLayout<L> {
    pub colored: L,
    pub colored_textured: L,
    pub two_colored_textured: L,
}

impl<L> SingleSpineBindGroupLayout<L> {
    /// The layout of `key`'s shader.
    pub open spec fn spec_layout(&self, key: KeySpineShader) -> L {
        match key {
            KeySpineShader::Colored => self.colored,
            KeySpineShader::ColoredTextured => self.colored_textured,
            KeySpineShader::TwoColoredTextured => self.two_colored_textured,
        }
    }

    /// The bind group layouts of `key`'s pipeline: its one layout.
    pub fn value<'a>(&'a self, key: &KeySpineShader) -> (r: Vec<&'a L>)
        ensures
            r@.len() == 1,
            *r@[0] == self.spec_layout(*key),
    {
        match key {
            KeySpineShader::Colored => vec![&self.colored],
            KeySpineShader::ColoredTextured => vec![&self.colored_textured],
            KeySpineShader::TwoColoredTextured => vec![&self.two_colored_textured],
        }
    }
}

/// What identifies a pipeline of the Spine renderer: the shader and the
/// fixed-function state.
#[derive(Debug, Clone, Copy, PartialEq, Eq, Hash, Structural)]
pub struct KeySpinePipeline {
    pub key_shader: KeySpineShader,
    pub key_state: KeyRenderPipelineState,
}

} // verus!
