//! Plain-value descriptions of the GPU state that the renderer decides:
//! blending, the pipeline key, vertex attributes, bind group layout entries
//! and sampler descriptions. The application turns them into the graphics
//! API's own structures.
use vstd::prelude::*;

verus! {

/// Factor of a blend equation.
#[derive(Debug, Clone, Copy, PartialEq, Eq, Hash, Structural)]
pub enum BlendFactor {
    Zero,
    One,
    Src,
    OneMinusSrc,
    SrcAlpha,
    OneMinusSrcAlpha,
    Dst,
    OneMinusDst,
    DstAlpha,
    OneMinusDstAlpha,
    SrcAlphaSaturated,
    Constant,
    OneMinusConstant,
    Src1,
    OneMinusSrc1,
    Src1Alpha,
    OneMinusSrc1Alpha,
}

/// Operation of a blend equation.
#[derive(Debug, Clone, Copy, PartialEq, Eq, Hash, Structural)]
pub enum BlendOperation {
    Add,
    Subtract,
    ReverseSubtract,
    Min,
    Max,
}

/// One blend equation: `src * src_factor (operation) dst * dst_factor`.
#[derive(Debug, Clone, Copy, PartialEq, Eq, Hash, Structural)]
pub struct BlendComponent {
    pub src_factor: BlendFactor,
    pub dst_factor: BlendFactor,
    pub operation: BlendOperation,
}

/// Blending of the color and of the alpha channel.
#[derive(Debug, Clone, Copy, PartialEq, Eq, Hash, Structural)]
pub struct BlendState {
    pub color: BlendComponent,
    pub alpha: BlendComponent,
}

/// The "over" equation: `src + dst * (1 - src_alpha)`.
pub open spec fn spec_blend_over() -> BlendComponent {
    BlendComponent {
        src_factor: BlendFactor::One,
        dst_factor: BlendFactor::OneMinusSrcAlpha,
        operation: BlendOperation::Add,
    }
}

/// The blend state that the renderer uses for a pair of color factors:
/// they are added on the color channel, and alpha blends "over".
pub open spec fn spec_blend_for(src_factor: BlendFactor, dst_factor: BlendFactor) -> BlendState {
    BlendState {
        color: BlendComponent { src_factor, dst_factor, operation: BlendOperation::Add },
        alpha: spec_blend_over(),
    }
}

impl BlendComponent {
    /// The "over" equation: `src + dst * (1 - src_alpha)`.
    pub fn over() -> (r: BlendComponent)
        ensures
            r == spec_blend_over(),
    {
        BlendComponent {
            src_factor: BlendFactor::One,
            dst_factor: BlendFactor::OneMinusSrcAlpha,
            operation: BlendOperation::Add,
        }
    }
}

impl BlendState {
    /// The blend state for a pair of color factors (see [`spec_blend_for`]).
    pub fn with_factors(src_factor: BlendFactor, dst_factor: BlendFactor) -> (r: BlendState)
        ensures
            r == spec_blend_for(src_factor, dst_factor),
    {
        BlendState {
            color: BlendComponent { src_factor, dst_factor, operation: BlendOperation::Add },
            alpha: BlendComponent::over(),
        }
    }
}

/// Formats of render targets: every uncompressed color format (depth,
/// stencil and block-compressed formats cannot be color targets).
#[derive(Debug, Clone, Copy, PartialEq, Eq, Hash, Structural)]
pub enum TextureFormat {
    R8Unorm,
    R8Snorm,
    R8Uint,
    R8Sint,
    R16Uint,
    R16Sint,
    R16Unorm,
    R16Snorm,
    R16Float,
    Rg8Unorm,
    Rg8Snorm,
    Rg8Uint,
    Rg8Sint,
    R32Uint,
    R32Sint,
    R32Float,
    Rg16Uint,
    Rg16Sint,
    Rg16Unorm,
    Rg16Snorm,
    Rg16Float,
    Rgba8Unorm,
    Rgba8UnormSrgb,
    Rgba8Snorm,
    Rgba8Uint,
    Rgba8Sint,
    Bgra8Unorm,
    Bgra8UnormSrgb,
    Rgb9e5Ufloat,
    Rgb10a2Uint,
    Rgb10a2Unorm,
    Rg11b10Float,
    Rg32Uint,
    Rg32Sint,
    Rg32Float,
    Rgba16Uint,
    Rgba16Sint,
    Rgba16Unorm,
    Rgba16Snorm,
    Rgba16Float,
    Rgba32Uint,
    Rgba32Sint,
    Rgba32Float,
}

/// Bits of the color channels that a target writes (red 1, green 2,
/// blue 4, alpha 8).
pub const COLOR_WRITES_ALL: u32 = 15;

#[derive(Debug, Clone, Copy, PartialEq, Eq, Hash, Structural)]
pub enum PrimitiveTopology {
    PointList,
    LineList,
    LineStrip,
    TriangleList,
    TriangleStrip,
}

#[derive(Debug, Clone, Copy, PartialEq, Eq, Hash, Structural)]
pub enum IndexFormat {
    Uint16,
    Uint32,
}

#[derive(Debug, Clone, Copy, PartialEq, Eq, Hash, Structural)]
pub enum PolygonMode {
    Fill,
    Line,
    Point,
}

#[derive(Debug, Clone, Copy, PartialEq, Eq, Hash, Structural)]
pub enum FrontFace {
    Ccw,
    Cw,
}

#[derive(Debug, Clone, Copy, PartialEq, Eq, Hash, Structural)]
pub enum Face {
    Front,
    Back,
}

/// How vertices are assembled into primitives.
#[derive(Debug, Clone, Copy, PartialEq, Eq, Hash, Structural)]
pub struct PrimitiveState {
    pub topology: PrimitiveTopology,
    pub strip_index_format: Option<IndexFormat>,
    pub front_face: FrontFace,
    pub cull_mode: Option<Face>,
    pub unclipped_depth: bool,
    pub polygon_mode: PolygonMode,
    pub conservative: bool,
}

/// Multisampling of a pipeline.
#[derive(Debug, Clone, Copy, PartialEq, Eq, Hash, Structural)]
pub struct MultisampleState {
    pub count: u32,
    pub mask: u64,
    pub alpha_to_coverage_enabled: bool,
}

/// The color target of a pipeline.
#[derive(Debug, Clone, Copy, PartialEq, Eq, Hash, Structural)]
pub struct ColorTargetState {
    pub format: TextureFormat,
    pub blend: Option<BlendState>,
    /// Bits as in [`COLOR_WRITES_ALL`].
    pub write_mask: u32,
}

/// The fixed-function state that, with the shader, identifies a pipeline.
/// Pipelines of the Spine renderer have no depth-stencil state.
#[derive(Debug, Clone, Copy, PartialEq, Eq, Hash, Structural)]
pub struct KeyRenderPipelineState {
    pub primitive: PrimitiveState,
    pub multisample: MultisampleState,
    pub target_state: Option<ColorTargetState>,
}

/// Format of one vertex attribute.
#[derive(Debug, Clone, Copy, PartialEq, Eq, Hash, Structural)]
pub enum VertexFormat {
    Float32x2,
    Float32x4,
}

impl VertexFormat {
    /// Size in bytes of an attribute of this format.
    pub open spec fn spec_size(self) -> nat {
        match self {
            VertexFormat::Float32x2 => 8,
            VertexFormat::Float32x4 => 16,
        }
    }

    /// Size in bytes of an attribute of this format.
    pub fn size(&self) -> (r: u64)
        ensures
            r == self.spec_size(),
    {
        match self {
            VertexFormat::Float32x2 => 8,
            VertexFormat::Float32x4 => 16,
        }
    }
}

/// One attribute of a vertex: its format, its byte offset in the vertex
/// and the shader location that reads it.
#[derive(Debug, Clone, Copy, PartialEq, Eq, Hash, Structural)]
pub struct VertexAttribute {
    pub format: VertexFormat,
    pub offset: u64,
    pub shader_location: u32,
}

/// Shader stages that see a binding.
#[derive(Debug, Clone, Copy, PartialEq, Eq, Hash, Structural)]
pub enum ShaderStages {
    Vertex,
    Fragment,
    VertexFragment,
}

/// What a binding holds.
#[derive(Debug, Clone, Copy, PartialEq, Eq, Hash, Structural)]
pub enum BindingType {
    /// A uniform buffer of at least `min_binding_size` bytes.
    UniformBuffer { has_dynamic_offset: bool, min_binding_size: u64 },
    /// A 2D texture of floats.
    Texture2d { filterable: bool, multisampled: bool },
    /// A sampler.
    Sampler { filtering: bool },
}

/// One entry of a bind group layout.
#[derive(Debug, Clone, Copy, PartialEq, Eq, Hash, Structural)]
pub struct BindGroupLayoutEntry {
    pub binding: u32,
    pub visibility: ShaderStages,
    pub ty: BindingType,
}

/// How texture coordinates outside [0, 1] are treated.
#[derive(Debug, Clone, Copy, PartialEq, Eq, Hash, Structural)]
pub enum EAddressMode {
    ClampToEdge,
    Repeat,
    MirrorRepeat,
    ClampToBorder,
}

/// Texel filtering.
#[derive(Debug, Clone, Copy, PartialEq, Eq, Hash, Structural)]
pub enum EFilterMode {
    Nearest,
    Linear,
}

/// Comparison of a comparison sampler.
#[derive(Debug, Clone, Copy, PartialEq, Eq, Hash, Structural)]
pub enum CompareFunction {
    Never,
    Less,
    Equal,
    LessEqual,
    Greater,
    NotEqual,
    GreaterEqual,
    Always,
}

/// Largest anisotropy of a sampler.
#[derive(Debug, Clone, Copy, PartialEq, Eq, Hash, Structural)]
pub enum EAnisotropyClamp {
    One,
    Two,
    Four,
    Eight,
    Sixteen,
}

/// Border color of a sampler that clamps to the border.
#[derive(Debug, Clone, Copy, PartialEq, Eq, Hash, Structural)]
pub enum SamplerBorderColor {
    TransparentBlack,
    OpaqueBlack,
    OpaqueWhite,
    Zero,
}

/// Description of a sampler.
#[derive(Debug, Clone, Copy, PartialEq, Eq, Hash, Structural)]
pub struct SamplerDesc {
    pub address_mode_u: EAddressMode,
    pub address_mode_v: EAddressMode,
    pub address_mode_w: EAddressMode,
    pub mag_filter: EFilterMode,
    pub min_filter: EFilterMode,
    pub mipmap_filter: EFilterMode,
    pub compare: Option<CompareFunction>,
    pub anisotropy_clamp: EAnisotropyClamp,
    pub border_color: Option<SamplerBorderColor>,
}

pub open spec fn address_code(m: EAddressMode) -> u64 {
    match m {
        EAddressMode::ClampToEdge => 0,
        EAddressMode::Repeat => 1,
        EAddressMode::MirrorRepeat => 2,
        EAddressMode::ClampToBorder => 3,
    }
}

pub open spec fn filter_code(m: EFilterMode) -> u64 {
    match m {
        EFilterMode::Nearest => 0,
        EFilterMode::Linear => 1,
    }
}

pub open spec fn compare_code(c: Option<CompareFunction>) -> u64 {
    match c {
        None => 0,
        Some(CompareFunction::Never) => 1,
        Some(CompareFunction::Less) => 2,
        Some(CompareFunction::Equal) => 3,
        Some(CompareFunction::LessEqual) => 4,
        Some(CompareFunction::Greater) => 5,
        Some(CompareFunction::NotEqual) => 6,
        Some(CompareFunction::GreaterEqual) => 7,
        Some(CompareFunction::Always) => 8,
    }
}

pub open spec fn anisotropy_code(a: EAnisotropyClamp) -> u64 {
    match a {
        EAnisotropyClamp::One => 0,
        EAnisotropyClamp::Two => 1,
        EAnisotropyClamp::Four => 2,
        EAnisotropyClamp::Eight => 3,
        EAnisotropyClamp::Sixteen => 4,
    }
}

pub open spec fn border_code(b: Option<SamplerBorderColor>) -> u64 {
    match b {
        None => 0,
        Some(SamplerBorderColor::TransparentBlack) => 1,
        Some(SamplerBorderColor::OpaqueBlack) => 2,
        Some(SamplerBorderColor::OpaqueWhite) => 3,
        Some(SamplerBorderColor::Zero) => 4,
    }
}

/// `digits` read in base 16, the first digit the lowest.
pub open spec fn base16(digits: Seq<int>) -> int
    decreases digits.len(),
{
    if digits.len() == 0 {
        0
    } else {
        digits[0] + 16 * base16(digits.drop_first())
    }
}

impl SamplerDesc {
    /// The codes of the fields, in declaration order.
    pub open spec fn digits(self) -> Seq<int> {
        seq![
            address_code(self.address_mode_u) as int,
            address_code(self.address_mode_v) as int,
            address_code(self.address_mode_w) as int,
            filter_code(self.mag_filter) as int,
            filter_code(self.min_filter) as int,
            filter_code(self.mipmap_filter) as int,
            compare_code(self.compare) as int,
            anisotropy_code(self.anisotropy_clamp) as int,
            border_code(self.border_color) as int,
        ]
    }

    /// The description packed into one integer: the field codes as base-16
    /// digits, the first field the lowest digit.
    pub open spec fn spec_key(self) -> int {
        base16(self.digits())
    }

    /// The description packed into one integer (see [`SamplerDesc::spec_key`]).
    pub fn key(&self) -> (r: u64)
        ensures
            r == self.spec_key(),
    {
        let d = self.digits_exec();
        proof {
            reveal_with_fuel(base16, 10);
        }
        d[0] + 16 * (d[1] + 16 * (d[2] + 16 * (d[3] + 16 * (d[4] + 16 * (d[5] + 16 * (d[6] + 16 * (
        d[7] + 16 * d[8])))))))
    }

    fn digits_exec(&self) -> (d: [u64; 9])
        ensures
            forall|i: int| 0 <= i < 9 ==> d@[i] == self.digits()[i] && d@[i] < 16,
    {
        [
            address_mode_code(self.address_mode_u),
            address_mode_code(self.address_mode_v),
            address_mode_code(self.address_mode_w),
            filter_mode_code(self.mag_filter),
            filter_mode_code(self.min_filter),
            filter_mode_code(self.mipmap_filter),
            compare_function_code(self.compare),
            anisotropy_clamp_code(self.anisotropy_clamp),
            border_color_code(self.border_color),
        ]
    }
}

fn address_mode_code(m: EAddressMode) -> (r: u64)
    ensures
        r == address_code(m),
{
    match m {
        EAddressMode::ClampToEdge => 0,
        EAddressMode::Repeat => 1,
        EAddressMode::MirrorRepeat => 2,
        EAddressMode::ClampToBorder => 3,
    }
}

fn filter_mode_code(m: EFilterMode) -> (r: u64)
    ensures
        r == filter_code(m),
{
    match m {
        EFilterMode::Nearest => 0,
        EFilterMode::Linear => 1,
    }
}

fn compare_function_code(c: Option<CompareFunction>) -> (r: u64)
    ensures
        r == compare_code(c),
{
    match c {
        None => 0,
        Some(CompareFunction::Never) => 1,
        Some(CompareFunction::Less) => 2,
        Some(CompareFunction::Equal) => 3,
        Some(CompareFunction::LessEqual) => 4,
        Some(CompareFunction::Greater) => 5,
        Some(CompareFunction::NotEqual) => 6,
        Some(CompareFunction::GreaterEqual) => 7,
        Some(CompareFunction::Always) => 8,
    }
}

fn anisotropy_clamp_code(a: EAnisotropyClamp) -> (r: u64)
    ensures
        r == anisotropy_code(a),
{
    match a {
        EAnisotropyClamp::One => 0,
        EAnisotropyClamp::Two => 1,
        EAnisotropyClamp::Four => 2,
        EAnisotropyClamp::Eight => 3,
        EAnisotropyClamp::Sixteen => 4,
    }
}

fn border_color_code(b: Option<SamplerBorderColor>) -> (r: u64)
    ensures
        r == border_code(b),
{
    match b {
        None => 0,
        Some(SamplerBorderColor::TransparentBlack) => 1,
        Some(SamplerBorderColor::OpaqueBlack) => 2,
        Some(SamplerBorderColor::OpaqueWhite) => 3,
        Some(SamplerBorderColor::Zero) => 4,
    }
}

proof fn lemma_base16_digit(a0: int, r0: int, b0: int, r1: int)
    by (nonlinear_arith)
    requires
        0 <= a0 < 16,
        0 <= b0 < 16,
        a0 + 16 * r0 == b0 + 16 * r1,
    ensures
        a0 == b0,
        r0 == r1,
{
}

/// Digit strings of one length, all digits below 16, with one value are
/// equal.
proof fn lemma_base16_injective(da: Seq<int>, db: Seq<int>)
    requires
        da.len() == db.len(),
        forall|i: int| 0 <= i < da.len() ==> 0 <= #[trigger] da[i] < 16,
        forall|i: int| 0 <= i < db.len() ==> 0 <= #[trigger] db[i] < 16,
        base16(da) == base16(db),
    ensures
        da == db,
    decreases da.len(),
{
    if da.len() > 0 {
        lemma_base16_digit(da[0], base16(da.drop_first()), db[0], base16(db.drop_first()));
        assert forall|i: int| 0 <= i < da.drop_first().len() implies 0 <= #[trigger] da.drop_first()[i] < 16 by {
            assert(da.drop_first()[i] == da[i + 1]);
        }
        assert forall|i: int| 0 <= i < db.drop_first().len() implies 0 <= #[trigger] db.drop_first()[i] < 16 by {
            assert(db.drop_first()[i] == db[i + 1]);
        }
        lemma_base16_injective(da.drop_first(), db.drop_first());
        assert(da =~= seq![da[0]] + da.drop_first());
        assert(db =~= seq![db[0]] + db.drop_first());
    }
}

/// Two sampler descriptions have the same key only when they are equal, so
/// a map keyed by [`SamplerDesc::key`] is a map keyed by the description.
pub proof fn lemma_sampler_key_injective(a: SamplerDesc, b: SamplerDesc)
    requires
        a.spec_key() == b.spec_key(),
    ensures
        a == b,
{
    lemma_base16_injective(a.digits(), b.digits());
    assert(a.digits()[0] == b.digits()[0]);
    assert(a.digits()[1] == b.digits()[1]);
    assert(a.digits()[2] == b.digits()[2]);
    assert(a.digits()[3] == b.digits()[3]);
    assert(a.digits()[4] == b.digits()[4]);
    assert(a.digits()[5] == b.digits()[5]);
    assert(a.digits()[6] == b.digits()[6]);
    assert(a.digits()[7] == b.digits()[7]);
    assert(a.digits()[8] == b.digits()[8]);
}

} // verus!
