//! Closed enumerations, one per state axis of the WebGL2 API.
//!
//! Each variant stands for one numeric constant of the external
//! specification; `code` maps a variant to that constant and is the only
//! bridge between the typed surface and the raw integers on the wire.
//! Codes travel in one direction only: no enumeration here offers a
//! constructor from an arbitrary integer, so a value of one of these types is
//! always a member of its declared variant set.  The few axes whose codes the
//! API hands back (usage hints, error conditions, wait outcomes and the like)
//! additionally offer `from_code`, which accepts exactly the declared codes
//! and rejects every other integer.

use vstd::prelude::*;

verus! {

/// Component counts accepted by `vertex_attrib_pointer`.
#[derive(Debug, Clone, Copy, PartialEq, Eq, Structural)]
pub enum AttributeSize {
    One,
    Two,
    Three,
    Four,
}

impl AttributeSize {
    /// The numeric code the external specification fixes for this variant.
    pub open spec fn spec_code(self) -> u32 {
        match self {
            AttributeSize::One => 1,
            AttributeSize::Two => 2,
            AttributeSize::Three => 3,
            AttributeSize::Four => 4,
        }
    }

    pub fn code(self) -> (c: u32)
        ensures
            c == self.spec_code(),
    {
        match self {
            AttributeSize::One => 1,
            AttributeSize::Two => 2,
            AttributeSize::Three => 3,
            AttributeSize::Four => 4,
        }
    }
}

/// Shader stages accepted by `create_shader`.
#[derive(Debug, Clone, Copy, PartialEq, Eq, Structural)]
pub enum ShaderKind {
    Fragment,
    Vertex,
}

impl ShaderKind {
    /// The numeric code the external specification fixes for this variant.
    pub open spec fn spec_code(self) -> u32 {
        match self {
            ShaderKind::Fragment => 0x8B30,
            ShaderKind::Vertex => 0x8B31,
        }
    }

    pub fn code(self) -> (c: u32)
        ensures
            c == self.spec_code(),
    {
        match self {
            ShaderKind::Fragment => 0x8B30,
            ShaderKind::Vertex => 0x8B31,
        }
    }
}

/// Implementation-limit and state constants read through the generic parameter query.
#[derive(Debug, Clone, Copy, PartialEq, Eq, Structural)]
pub enum NotProgramParameter {
    MaxVertexAttribs,
    MaxVertexUniformVectors,
    MaxVaryingVectors,
    MaxCombinedTextureImageUnits,
    MaxVertexTextureImageUnits,
    MaxTextureImageUnits,
    MaxFragmentUniformVectors,
    ShadingLanguageVersion,
    CurrentProgram,
}

impl NotProgramParameter {
    /// The numeric code the external specification fixes for this variant.
    pub open spec fn spec_code(self) -> u32 {
        match self {
            NotProgramParameter::MaxVertexAttribs => 0x8869,
            NotProgramParameter::MaxVertexUniformVectors => 0x8DFB,
            NotProgramParameter::MaxVaryingVectors => 0x8DFC,
            NotProgramParameter::MaxCombinedTextureImageUnits => 0x8B4D,
            NotProgramParameter::MaxVertexTextureImageUnits => 0x8B4C,
            NotProgramParameter::MaxTextureImageUnits => 0x8872,
            NotProgramParameter::MaxFragmentUniformVectors => 0x8DFD,
            NotProgramParameter::ShadingLanguageVersion => 0x8B8C,
            NotProgramParameter::CurrentProgram => 0x8B8D,
        }
    }

    pub fn code(self) -> (c: u32)
        ensures
            c == self.spec_code(),
    {
        match self {
            NotProgramParameter::MaxVertexAttribs => 0x8869,
            NotProgramParameter::MaxVertexUniformVectors => 0x8DFB,
            NotProgramParameter::MaxVaryingVectors => 0x8DFC,
            NotProgramParameter::MaxCombinedTextureImageUnits => 0x8B4D,
            NotProgramParameter::MaxVertexTextureImageUnits => 0x8B4C,
            NotProgramParameter::MaxTextureImageUnits => 0x8872,
            NotProgramParameter::MaxFragmentUniformVectors => 0x8DFD,
            NotProgramParameter::ShadingLanguageVersion => 0x8B8C,
            NotProgramParameter::CurrentProgram => 0x8B8D,
        }
    }
}

/// Program properties accepted by `get_program_parameter`.
#[derive(Debug, Clone, Copy, PartialEq, Eq, Structural)]
pub enum ProgramParameter {
    DeleteStatus,
    LinkStatus,
    ValidateStatus,
    AttachedShaders,
    ActiveAttributes,
    ActiveUniforms,
    TransformFeedbackBufferMode,
    TransformFeedbackVaryings,
    ActiveUniformBlocks,
}

impl ProgramParameter {
    /// The numeric code the external specification fixes for this variant.
    pub open spec fn spec_code(self) -> u32 {
        match self {
            ProgramParameter::DeleteStatus => 0x8B80,
            ProgramParameter::LinkStatus => 0x8B82,
            ProgramParameter::ValidateStatus => 0x8B83,
            ProgramParameter::AttachedShaders => 0x8B85,
            ProgramParameter::ActiveAttributes => 0x8B89,
            ProgramParameter::ActiveUniforms => 0x8B86,
            ProgramParameter::TransformFeedbackBufferMode => 0x8C7F,
            ProgramParameter::TransformFeedbackVaryings => 0x8C83,
            ProgramParameter::ActiveUniformBlocks => 0x8A36,
        }
    }

    pub fn code(self) -> (c: u32)
        ensures
            c == self.spec_code(),
    {
        match self {
            ProgramParameter::DeleteStatus => 0x8B80,
            ProgramParameter::LinkStatus => 0x8B82,
            ProgramParameter::ValidateStatus => 0x8B83,
            ProgramParameter::AttachedShaders => 0x8B85,
            ProgramParameter::ActiveAttributes => 0x8B89,
            ProgramParameter::ActiveUniforms => 0x8B86,
            ProgramParameter::TransformFeedbackBufferMode => 0x8C7F,
            ProgramParameter::TransformFeedbackVaryings => 0x8C83,
            ProgramParameter::ActiveUniformBlocks => 0x8A36,
        }
    }
}

/// Shader properties accepted by `get_shader_parameter`.
#[derive(Debug, Clone, Copy, PartialEq, Eq, Structural)]
pub enum ShaderParameter {
    CompileStatus,
    DeleteStatus,
    ShaderType,
}

impl ShaderParameter {
    /// The numeric code the external specification fixes for this variant.
    pub open spec fn spec_code(self) -> u32 {
        match self {
            ShaderParameter::CompileStatus => 0x8B81,
            ShaderParameter::DeleteStatus => 0x8B80,
            ShaderParameter::ShaderType => 0x8B4F,
        }
    }

    pub fn code(self) -> (c: u32)
        ensures
            c == self.spec_code(),
    {
        match self {
            ShaderParameter::CompileStatus => 0x8B81,
            ShaderParameter::DeleteStatus => 0x8B80,
            ShaderParameter::ShaderType => 0x8B4F,
        }
    }
}

/// Buffer targets accepted by `bind_buffer` and the `buffer_data` family.
#[derive(Debug, Clone, Copy, PartialEq, Eq, Structural)]
pub enum BufferKind {
    Array,
    ElementArray,
    CopyReadBuffer,
    CopyWriteBuffer,
    TransformFeedbackBuffer,
    UniformBuffer,
    PixelPackBuffer,
    PixelUnpackBuffer,
}

impl BufferKind {
    /// The numeric code the external specification fixes for this variant.
    pub open spec fn spec_code(self) -> u32 {
        match self {
            BufferKind::Array => 0x8892,
            BufferKind::ElementArray => 0x8893,
            BufferKind::CopyReadBuffer => 0x8F36,
            BufferKind::CopyWriteBuffer => 0x8F37,
            BufferKind::TransformFeedbackBuffer => 0x8C8E,
            BufferKind::UniformBuffer => 0x8A11,
            BufferKind::PixelPackBuffer => 0x88EB,
            BufferKind::PixelUnpackBuffer => 0x88EC,
        }
    }

    pub fn code(self) -> (c: u32)
        ensures
            c == self.spec_code(),
    {
        match self {
            BufferKind::Array => 0x8892,
            BufferKind::ElementArray => 0x8893,
            BufferKind::CopyReadBuffer => 0x8F36,
            BufferKind::CopyWriteBuffer => 0x8F37,
            BufferKind::TransformFeedbackBuffer => 0x8C8E,
            BufferKind::UniformBuffer => 0x8A11,
            BufferKind::PixelPackBuffer => 0x88EB,
            BufferKind::PixelUnpackBuffer => 0x88EC,
        }
    }
}

/// Usage hints accepted by the `buffer_data` family.
#[derive(Debug, Clone, Copy, PartialEq, Eq, Structural)]
pub enum DataHint {
    StaticDraw,
    DynamicDraw,
    StreamDraw,
    StaticRead,
    DynamicRead,
    StreamRead,
    StaticCopy,
    DynamicCopy,
    StreamCopy,
}

impl DataHint {
    /// The numeric code the external specification fixes for this variant.
    pub open spec fn spec_code(self) -> u32 {
        match self {
            DataHint::StaticDraw => 0x88E4,
            DataHint::DynamicDraw => 0x88E8,
            DataHint::StreamDraw => 0x88E0,
            DataHint::StaticRead => 0x88E5,
            DataHint::DynamicRead => 0x88E9,
            DataHint::StreamRead => 0x88E1,
            DataHint::StaticCopy => 0x88E6,
            DataHint::DynamicCopy => 0x88EA,
            DataHint::StreamCopy => 0x88E2,
        }
    }

    pub fn code(self) -> (c: u32)
        ensures
            c == self.spec_code(),
    {
        match self {
            DataHint::StaticDraw => 0x88E4,
            DataHint::DynamicDraw => 0x88E8,
            DataHint::StreamDraw => 0x88E0,
            DataHint::StaticRead => 0x88E5,
            DataHint::DynamicRead => 0x88E9,
            DataHint::StreamRead => 0x88E1,
            DataHint::StaticCopy => 0x88E6,
            DataHint::DynamicCopy => 0x88EA,
            DataHint::StreamCopy => 0x88E2,
        }
    }

    /// The variant whose code is `c`, if `c` belongs to this axis.
    pub open spec fn spec_from_code(c: u32) -> Option<DataHint> {
        if c == 0x88E4 { Some(DataHint::StaticDraw)
        } else if c == 0x88E8 { Some(DataHint::DynamicDraw)
        } else if c == 0x88E0 { Some(DataHint::StreamDraw)
        } else if c == 0x88E5 { Some(DataHint::StaticRead)
        } else if c == 0x88E9 { Some(DataHint::DynamicRead)
        } else if c == 0x88E1 { Some(DataHint::StreamRead)
        } else if c == 0x88E6 { Some(DataHint::StaticCopy)
        } else if c == 0x88EA { Some(DataHint::DynamicCopy)
        } else if c == 0x88E2 { Some(DataHint::StreamCopy)
        } else { None }
    }

    pub fn from_code(c: u32) -> (r: Option<DataHint>)
        ensures
            r == DataHint::spec_from_code(c),
            r matches Some(v) ==> v.spec_code() == c,
    {
        if c == 0x88E4 { Some(DataHint::StaticDraw)
        } else if c == 0x88E8 { Some(DataHint::DynamicDraw)
        } else if c == 0x88E0 { Some(DataHint::StreamDraw)
        } else if c == 0x88E5 { Some(DataHint::StaticRead)
        } else if c == 0x88E9 { Some(DataHint::DynamicRead)
        } else if c == 0x88E1 { Some(DataHint::StreamRead)
        } else if c == 0x88E6 { Some(DataHint::StaticCopy)
        } else if c == 0x88EA { Some(DataHint::DynamicCopy)
        } else if c == 0x88E2 { Some(DataHint::StreamCopy)
        } else {
            None
        }
    }
}

/// Decoding is a left inverse of encoding: every variant is recovered
/// exactly from its own code.
pub proof fn lemma_data_hint_code_roundtrip(v: DataHint)
    ensures
        DataHint::spec_from_code(v.spec_code()) == Some(v),
{
    match v {
        DataHint::StaticDraw => assert(DataHint::spec_from_code(v.spec_code()) == Some(v)),
        DataHint::DynamicDraw => assert(DataHint::spec_from_code(v.spec_code()) == Some(v)),
        DataHint::StreamDraw => assert(DataHint::spec_from_code(v.spec_code()) == Some(v)),
        DataHint::StaticRead => assert(DataHint::spec_from_code(v.spec_code()) == Some(v)),
        DataHint::DynamicRead => assert(DataHint::spec_from_code(v.spec_code()) == Some(v)),
        DataHint::StreamRead => assert(DataHint::spec_from_code(v.spec_code()) == Some(v)),
        DataHint::StaticCopy => assert(DataHint::spec_from_code(v.spec_code()) == Some(v)),
        DataHint::DynamicCopy => assert(DataHint::spec_from_code(v.spec_code()) == Some(v)),
        DataHint::StreamCopy => assert(DataHint::spec_from_code(v.spec_code()) == Some(v)),
    }
}

/// Buffer properties accepted by `get_buffer_parameter`.
#[derive(Debug, Clone, Copy, PartialEq, Eq, Structural)]
pub enum BufferParameter {
    Size,
    Usage,
}

impl BufferParameter {
    /// The numeric code the external specification fixes for this variant.
    pub open spec fn spec_code(self) -> u32 {
        match self {
            BufferParameter::Size => 0x8764,
            BufferParameter::Usage => 0x8765,
        }
    }

    pub fn code(self) -> (c: u32)
        ensures
            c == self.spec_code(),
    {
        match self {
            BufferParameter::Size => 0x8764,
            BufferParameter::Usage => 0x8765,
        }
    }
}

/// Element types accepted by `draw_elements`.
#[derive(Debug, Clone, Copy, PartialEq, Eq, Structural)]
pub enum DataType {
    I8,
    U8,
    I16,
    U16,
    I32,
    U32,
    Float,
}

impl DataType {
    /// The numeric code the external specification fixes for this variant.
    pub open spec fn spec_code(self) -> u32 {
        match self {
            DataType::I8 => 0x1400,
            DataType::U8 => 0x1401,
            DataType::I16 => 0x1402,
            DataType::U16 => 0x1403,
            DataType::I32 => 0x1404,
            DataType::U32 => 0x1405,
            DataType::Float => 0x1406,
        }
    }

    pub fn code(self) -> (c: u32)
        ensures
            c == self.spec_code(),
    {
        match self {
            DataType::I8 => 0x1400,
            DataType::U8 => 0x1401,
            DataType::I16 => 0x1402,
            DataType::U16 => 0x1403,
            DataType::I32 => 0x1404,
            DataType::U32 => 0x1405,
            DataType::Float => 0x1406,
        }
    }
}

/// Capabilities accepted by `enable`, `disable` and `is_enabled`.
#[derive(Debug, Clone, Copy, PartialEq, Eq, Structural)]
pub enum Flag {
    Blend,
    CullFace,
    DepthTest,
    Dither,
    PolygonOffsetFill,
    SampleAlphaToCoverage,
    SampleCoverage,
    ScissorTest,
    StencilTest,
    RasterizerDiscard,
}

impl Flag {
    /// The numeric code the external specification fixes for this variant.
    pub open spec fn spec_code(self) -> u32 {
        match self {
            Flag::Blend => 0x0BE2,
            Flag::CullFace => 0x0B44,
            Flag::DepthTest => 0x0B71,
            Flag::Dither => 0x0BD0,
            Flag::PolygonOffsetFill => 0x8037,
            Flag::SampleAlphaToCoverage => 0x809E,
            Flag::SampleCoverage => 0x80A0,
            Flag::ScissorTest => 0x0C11,
            Flag::StencilTest => 0x0B90,
            Flag::RasterizerDiscard => 0x8C89,
        }
    }

    pub fn code(self) -> (c: u32)
        ensures
            c == self.spec_code(),
    {
        match self {
            Flag::Blend => 0x0BE2,
            Flag::CullFace => 0x0B44,
            Flag::DepthTest => 0x0B71,
            Flag::Dither => 0x0BD0,
            Flag::PolygonOffsetFill => 0x8037,
            Flag::SampleAlphaToCoverage => 0x809E,
            Flag::SampleCoverage => 0x80A0,
            Flag::ScissorTest => 0x0C11,
            Flag::StencilTest => 0x0B90,
            Flag::RasterizerDiscard => 0x8C89,
        }
    }
}

/// Buffer masks accepted by `clear`.
#[derive(Debug, Clone, Copy, PartialEq, Eq, Structural)]
pub enum BufferBit {
    Depth,
    Stencil,
    Color,
}

impl BufferBit {
    /// The numeric code the external specification fixes for this variant.
    pub open spec fn spec_code(self) -> u32 {
        match self {
            BufferBit::Depth => 0x00000100,
            BufferBit::Stencil => 0x00000400,
            BufferBit::Color => 0x00004000,
        }
    }

    pub fn code(self) -> (c: u32)
        ensures
            c == self.spec_code(),
    {
        match self {
            BufferBit::Depth => 0x00000100,
            BufferBit::Stencil => 0x00000400,
            BufferBit::Color => 0x00004000,
        }
    }
}

/// Primitive kinds accepted by `draw_arrays` and `draw_elements`.
#[derive(Debug, Clone, Copy, PartialEq, Eq, Structural)]
pub enum Primitives {
    Points,
    Lines,
    LineLoop,
    LineStrip,
    Triangles,
    TriangleStrip,
    TriangleFan,
}

impl Primitives {
    /// The numeric code the external specification fixes for this variant.
    pub open spec fn spec_code(self) -> u32 {
        match self {
            Primitives::Points => 0x0000,
            Primitives::Lines => 0x0001,
            Primitives::LineLoop => 0x0002,
            Primitives::LineStrip => 0x0003,
            Primitives::Triangles => 0x0004,
            Primitives::TriangleStrip => 0x0005,
            Primitives::TriangleFan => 0x0006,
        }
    }

    pub fn code(self) -> (c: u32)
        ensures
            c == self.spec_code(),
    {
        match self {
            Primitives::Points => 0x0000,
            Primitives::Lines => 0x0001,
            Primitives::LineLoop => 0x0002,
            Primitives::LineStrip => 0x0003,
            Primitives::Triangles => 0x0004,
            Primitives::TriangleStrip => 0x0005,
            Primitives::TriangleFan => 0x0006,
        }
    }
}

/// Blending factors accepted by `blend_func` and `blend_func_separate`.
#[derive(Debug, Clone, Copy, PartialEq, Eq, Structural)]
pub enum BlendMode {
    Zero,
    One,
    SrcColor,
    OneMinusSrcColor,
    SrcAlpha,
    OneMinusSrcAlpha,
    DstAlpha,
    OneMinusDstAlpha,
    DstColor,
    OneMinusDstColor,
    SrcAlphaSaturate,
    ConstantColor,
    OneMinusConstantColor,
    ConstantAlpha,
    OneMinusConstantAlpha,
}

impl BlendMode {
    /// The numeric code the external specification fixes for this variant.
    pub open spec fn spec_code(self) -> u32 {
        match self {
            BlendMode::Zero => 0,
            BlendMode::One => 1,
            BlendMode::SrcColor => 0x0300,
            BlendMode::OneMinusSrcColor => 0x0301,
            BlendMode::SrcAlpha => 0x0302,
            BlendMode::OneMinusSrcAlpha => 0x0303,
            BlendMode::DstAlpha => 0x0304,
            BlendMode::OneMinusDstAlpha => 0x0305,
            BlendMode::DstColor => 0x0306,
            BlendMode::OneMinusDstColor => 0x0307,
            BlendMode::SrcAlphaSaturate => 0x0308,
            BlendMode::ConstantColor => 0x8001,
            BlendMode::OneMinusConstantColor => 0x8002,
            BlendMode::ConstantAlpha => 0x8003,
            BlendMode::OneMinusConstantAlpha => 0x8004,
        }
    }

    pub fn code(self) -> (c: u32)
        ensures
            c == self.spec_code(),
    {
        match self {
            BlendMode::Zero => 0,
            BlendMode::One => 1,
            BlendMode::SrcColor => 0x0300,
            BlendMode::OneMinusSrcColor => 0x0301,
            BlendMode::SrcAlpha => 0x0302,
            BlendMode::OneMinusSrcAlpha => 0x0303,
            BlendMode::DstAlpha => 0x0304,
            BlendMode::OneMinusDstAlpha => 0x0305,
            BlendMode::DstColor => 0x0306,
            BlendMode::OneMinusDstColor => 0x0307,
            BlendMode::SrcAlphaSaturate => 0x0308,
            BlendMode::ConstantColor => 0x8001,
            BlendMode::OneMinusConstantColor => 0x8002,
            BlendMode::ConstantAlpha => 0x8003,
            BlendMode::OneMinusConstantAlpha => 0x8004,
        }
    }
}

/// Blending equations accepted by `blend_equation` and `blend_equation_separate`.
#[derive(Debug, Clone, Copy, PartialEq, Eq, Structural)]
pub enum BlendEquation {
    FuncAdd,
    FuncSubstract,
    FuncReverseSubtract,
    Min,
    Max,
}

impl BlendEquation {
    /// The numeric code the external specification fixes for this variant.
    pub open spec fn spec_code(self) -> u32 {
        match self {
            BlendEquation::FuncAdd => 0x8006,
            BlendEquation::FuncSubstract => 0x800A,
            BlendEquation::FuncReverseSubtract => 0x800B,
            BlendEquation::Min => 0x8007,
            BlendEquation::Max => 0x8008,
        }
    }

    pub fn code(self) -> (c: u32)
        ensures
            c == self.spec_code(),
    {
        match self {
            BlendEquation::FuncAdd => 0x8006,
            BlendEquation::FuncSubstract => 0x800A,
            BlendEquation::FuncReverseSubtract => 0x800B,
            BlendEquation::Min => 0x8007,
            BlendEquation::Max => 0x8008,
        }
    }
}

/// State names accepted by the generic parameter query.
#[derive(Debug, Clone, Copy, PartialEq, Eq, Structural)]
pub enum Parameter {
    BlendEquation,
    BlendEquationAlpha,
    BlendDstRgb,
    BlendSrcRgb,
    BlendDstAlpha,
    BlendSrcAlpha,
    BlendColor,
    ArrayBufferBinding,
    ElementArrayBufferBinding,
    LineWidth,
    AliasedPointSizeRange,
    AliasedLineWidthRange,
    CullFaceMode,
    FrontFace,
    DepthRange,
    DepthWritemask,
    DepthClearValue,
    DepthFunc,
    StencilClearValue,
    StencilFunc,
    StencilFail,
    StencilPassDepthFail,
    StencilPassDepthPass,
    StencilRef,
    StencilValueMask,
    StencilWritemask,
    StencilBackFunc,
    StencilBackFail,
    StencilBackPassDepthFail,
    StencilBackPassDepthPass,
    StencilBackRef,
    StencilBackValueMask,
    StencilBackWritemask,
    Viewport,
    ScissorBox,
    ColorClearValue,
    ColorWritemask,
    UnpackAlignment,
    PackAlignment,
    MaxTextureSize,
    MaxViewportDims,
    SubpixelBits,
    RedBits,
    GreenBits,
    BlueBits,
    AlphaBits,
    DepthBits,
    StencilBits,
    PolygonOffsetUnits,
    PolygonOffsetFactor,
    TextureBinding2d,
    SampleBuffers,
    Samples,
    SampleCoverageValue,
    SampleCoverageInvert,
    CompressedTextureFormats,
    Vendor,
    Renderer,
    Version,
    ImplementationColorReadType,
    ImplementationColorReadFormat,
    BrowserDefaultWebgl,
    TextureBindingCubeMap,
    MaxCubeMapTextureSize,
}

impl Parameter {
    /// The numeric code the external specification fixes for this variant.
    pub open spec fn spec_code(self) -> u32 {
        match self {
            Parameter::BlendEquation => 0x8009,
            Parameter::BlendEquationAlpha => 0x883D,
            Parameter::BlendDstRgb => 0x80C8,
            Parameter::BlendSrcRgb => 0x80C9,
            Parameter::BlendDstAlpha => 0x80CA,
            Parameter::BlendSrcAlpha => 0x80CB,
            Parameter::BlendColor => 0x8005,
            Parameter::ArrayBufferBinding => 0x8894,
            Parameter::ElementArrayBufferBinding => 0x8895,
            Parameter::LineWidth => 0x0B21,
            Parameter::AliasedPointSizeRange => 0x846D,
            Parameter::AliasedLineWidthRange => 0x846E,
            Parameter::CullFaceMode => 0x0B45,
            Parameter::FrontFace => 0x0B46,
            Parameter::DepthRange => 0x0B70,
            Parameter::DepthWritemask => 0x0B72,
            Parameter::DepthClearValue => 0x0B73,
            Parameter::DepthFunc => 0x0B74,
            Parameter::StencilClearValue => 0x0B91,
            Parameter::StencilFunc => 0x0B92,
            Parameter::StencilFail => 0x0B94,
            Parameter::StencilPassDepthFail => 0x0B95,
            Parameter::StencilPassDepthPass => 0x0B96,
            Parameter::StencilRef => 0x0B97,
            Parameter::StencilValueMask => 0x0B93,
            Parameter::StencilWritemask => 0x0B98,
            Parameter::StencilBackFunc => 0x8800,
            Parameter::StencilBackFail => 0x8801,
            Parameter::StencilBackPassDepthFail => 0x8802,
            Parameter::StencilBackPassDepthPass => 0x8803,
            Parameter::StencilBackRef => 0x8CA3,
            Parameter::StencilBackValueMask => 0x8CA4,
            Parameter::StencilBackWritemask => 0x8CA5,
            Parameter::Viewport => 0x0BA2,
            Parameter::ScissorBox => 0x0C10,
            Parameter::ColorClearValue => 0x0C22,
            Parameter::ColorWritemask => 0x0C23,
            Parameter::UnpackAlignment => 0x0CF5,
            Parameter::PackAlignment => 0x0D05,
            Parameter::MaxTextureSize => 0x0D33,
            Parameter::MaxViewportDims => 0x0D3A,
            Parameter::SubpixelBits => 0x0D50,
            Parameter::RedBits => 0x0D52,
            Parameter::GreenBits => 0x0D53,
            Parameter::BlueBits => 0x0D54,
            Parameter::AlphaBits => 0x0D55,
            Parameter::DepthBits => 0x0D56,
            Parameter::StencilBits => 0x0D57,
            Parameter::PolygonOffsetUnits => 0x2A00,
            Parameter::PolygonOffsetFactor => 0x8038,
            Parameter::TextureBinding2d => 0x8069,
            Parameter::SampleBuffers => 0x80A8,
            Parameter::Samples => 0x80A9,
            Parameter::SampleCoverageValue => 0x80AA,
            Parameter::SampleCoverageInvert => 0x80AB,
            Parameter::CompressedTextureFormats => 0x86A3,
            Parameter::Vendor => 0x1F00,
            Parameter::Renderer => 0x1F01,
            Parameter::Version => 0x1F02,
            Parameter::ImplementationColorReadType => 0x8B9A,
            Parameter::ImplementationColorReadFormat => 0x8B9B,
            Parameter::BrowserDefaultWebgl => 0x9244,
            Parameter::TextureBindingCubeMap => 0x8514,
            Parameter::MaxCubeMapTextureSize => 0x851C,
        }
    }

    pub fn code(self) -> (c: u32)
        ensures
            c == self.spec_code(),
    {
        match self {
            Parameter::BlendEquation => 0x8009,
            Parameter::BlendEquationAlpha => 0x883D,
            Parameter::BlendDstRgb => 0x80C8,
            Parameter::BlendSrcRgb => 0x80C9,
            Parameter::BlendDstAlpha => 0x80CA,
            Parameter::BlendSrcAlpha => 0x80CB,
            Parameter::BlendColor => 0x8005,
            Parameter::ArrayBufferBinding => 0x8894,
            Parameter::ElementArrayBufferBinding => 0x8895,
            Parameter::LineWidth => 0x0B21,
            Parameter::AliasedPointSizeRange => 0x846D,
            Parameter::AliasedLineWidthRange => 0x846E,
            Parameter::CullFaceMode => 0x0B45,
            Parameter::FrontFace => 0x0B46,
            Parameter::DepthRange => 0x0B70,
            Parameter::DepthWritemask => 0x0B72,
            Parameter::DepthClearValue => 0x0B73,
            Parameter::DepthFunc => 0x0B74,
            Parameter::StencilClearValue => 0x0B91,
            Parameter::StencilFunc => 0x0B92,
            Parameter::StencilFail => 0x0B94,
            Parameter::StencilPassDepthFail => 0x0B95,
            Parameter::StencilPassDepthPass => 0x0B96,
            Parameter::StencilRef => 0x0B97,
            Parameter::StencilValueMask => 0x0B93,
            Parameter::StencilWritemask => 0x0B98,
            Parameter::StencilBackFunc => 0x8800,
            Parameter::StencilBackFail => 0x8801,
            Parameter::StencilBackPassDepthFail => 0x8802,
            Parameter::StencilBackPassDepthPass => 0x8803,
            Parameter::StencilBackRef => 0x8CA3,
            Parameter::StencilBackValueMask => 0x8CA4,
            Parameter::StencilBackWritemask => 0x8CA5,
            Parameter::Viewport => 0x0BA2,
            Parameter::ScissorBox => 0x0C10,
            Parameter::ColorClearValue => 0x0C22,
            Parameter::ColorWritemask => 0x0C23,
            Parameter::UnpackAlignment => 0x0CF5,
            Parameter::PackAlignment => 0x0D05,
            Parameter::MaxTextureSize => 0x0D33,
            Parameter::MaxViewportDims => 0x0D3A,
            Parameter::SubpixelBits => 0x0D50,
            Parameter::RedBits => 0x0D52,
            Parameter::GreenBits => 0x0D53,
            Parameter::BlueBits => 0x0D54,
            Parameter::AlphaBits => 0x0D55,
            Parameter::DepthBits => 0x0D56,
            Parameter::StencilBits => 0x0D57,
            Parameter::PolygonOffsetUnits => 0x2A00,
            Parameter::PolygonOffsetFactor => 0x8038,
            Parameter::TextureBinding2d => 0x8069,
            Parameter::SampleBuffers => 0x80A8,
            Parameter::Samples => 0x80A9,
            Parameter::SampleCoverageValue => 0x80AA,
            Parameter::SampleCoverageInvert => 0x80AB,
            Parameter::CompressedTextureFormats => 0x86A3,
            Parameter::Vendor => 0x1F00,
            Parameter::Renderer => 0x1F01,
            Parameter::Version => 0x1F02,
            Parameter::ImplementationColorReadType => 0x8B9A,
            Parameter::ImplementationColorReadFormat => 0x8B9B,
            Parameter::BrowserDefaultWebgl => 0x9244,
            Parameter::TextureBindingCubeMap => 0x8514,
            Parameter::MaxCubeMapTextureSize => 0x851C,
        }
    }
}

/// Attribute properties accepted by `get_vertex_attrib`.
#[derive(Debug, Clone, Copy, PartialEq, Eq, Structural)]
pub enum VertexAttrib {
    Current,
    ArrayEnabled,
    ArraySize,
    ArrayStride,
    ArrayType,
    ArrayNormalized,
    ArrayPointer,
    ArrayBufferBinding,
}

impl VertexAttrib {
    /// The numeric code the external specification fixes for this variant.
    pub open spec fn spec_code(self) -> u32 {
        match self {
            VertexAttrib::Current => 0x8626,
            VertexAttrib::ArrayEnabled => 0x8622,
            VertexAttrib::ArraySize => 0x8623,
            VertexAttrib::ArrayStride => 0x8624,
            VertexAttrib::ArrayType => 0x8625,
            VertexAttrib::ArrayNormalized => 0x886A,
            VertexAttrib::ArrayPointer => 0x8645,
            VertexAttrib::ArrayBufferBinding => 0x889F,
        }
    }

    pub fn code(self) -> (c: u32)
        ensures
            c == self.spec_code(),
    {
        match self {
            VertexAttrib::Current => 0x8626,
            VertexAttrib::ArrayEnabled => 0x8622,
            VertexAttrib::ArraySize => 0x8623,
            VertexAttrib::ArrayStride => 0x8624,
            VertexAttrib::ArrayType => 0x8625,
            VertexAttrib::ArrayNormalized => 0x886A,
            VertexAttrib::ArrayPointer => 0x8645,
            VertexAttrib::ArrayBufferBinding => 0x889F,
        }
    }
}

/// Face selections accepted by `cull_face` and the separate stencil calls.
#[derive(Debug, Clone, Copy, PartialEq, Eq, Structural)]
pub enum Culling {
    Front,
    Back,
    FrontAndBack,
}

impl Culling {
    /// The numeric code the external specification fixes for this variant.
    pub open spec fn spec_code(self) -> u32 {
        match self {
            Culling::Front => 0x0404,
            Culling::Back => 0x0405,
            Culling::FrontAndBack => 0x0408,
        }
    }

    pub fn code(self) -> (c: u32)
        ensures
            c == self.spec_code(),
    {
        match self {
            Culling::Front => 0x0404,
            Culling::Back => 0x0405,
            Culling::FrontAndBack => 0x0408,
        }
    }
}

/// Error conditions reported by `get_error`.
#[derive(Debug, Clone, Copy, PartialEq, Eq, Structural)]
pub enum Error {
    NoError,
    InvalidEnum,
    InvalidValue,
    InvalidOperation,
    InvalidFramebufferOperation,
    OutOfMemory,
    ContextLostWebgl,
}

impl Error {
    /// The numeric code the external specification fixes for this variant.
    pub open spec fn spec_code(self) -> u32 {
        match self {
            Error::NoError => 0,
            Error::InvalidEnum => 0x0500,
            Error::InvalidValue => 0x0501,
            Error::InvalidOperation => 0x0502,
            Error::InvalidFramebufferOperation => 0x0506,
            Error::OutOfMemory => 0x0505,
            Error::ContextLostWebgl => 0x9242,
        }
    }

    pub fn code(self) -> (c: u32)
        ensures
            c == self.spec_code(),
    {
        match self {
            Error::NoError => 0,
            Error::InvalidEnum => 0x0500,
            Error::InvalidValue => 0x0501,
            Error::InvalidOperation => 0x0502,
            Error::InvalidFramebufferOperation => 0x0506,
            Error::OutOfMemory => 0x0505,
            Error::ContextLostWebgl => 0x9242,
        }
    }

    /// The variant whose code is `c`, if `c` belongs to this axis.
    pub open spec fn spec_from_code(c: u32) -> Option<Error> {
        if c == 0 { Some(Error::NoError)
        } else if c == 0x0500 { Some(Error::InvalidEnum)
        } else if c == 0x0501 { Some(Error::InvalidValue)
        } else if c == 0x0502 { Some(Error::InvalidOperation)
        } else if c == 0x0506 { Some(Error::InvalidFramebufferOperation)
        } else if c == 0x0505 { Some(Error::OutOfMemory)
        } else if c == 0x9242 { Some(Error::ContextLostWebgl)
        } else { None }
    }

    pub fn from_code(c: u32) -> (r: Option<Error>)
        ensures
            r == Error::spec_from_code(c),
            r matches Some(v) ==> v.spec_code() == c,
    {
        if c == 0 { Some(Error::NoError)
        } else if c == 0x0500 { Some(Error::InvalidEnum)
        } else if c == 0x0501 { Some(Error::InvalidValue)
        } else if c == 0x0502 { Some(Error::InvalidOperation)
        } else if c == 0x0506 { Some(Error::InvalidFramebufferOperation)
        } else if c == 0x0505 { Some(Error::OutOfMemory)
        } else if c == 0x9242 { Some(Error::ContextLostWebgl)
        } else {
            None
        }
    }
}

/// Decoding is a left inverse of encoding: every variant is recovered
/// exactly from its own code.
pub proof fn lemma_error_code_roundtrip(v: Error)
    ensures
        Error::spec_from_code(v.spec_code()) == Some(v),
{
    match v {
        Error::NoError => assert(Error::spec_from_code(v.spec_code()) == Some(v)),
        Error::InvalidEnum => assert(Error::spec_from_code(v.spec_code()) == Some(v)),
        Error::InvalidValue => assert(Error::spec_from_code(v.spec_code()) == Some(v)),
        Error::InvalidOperation => assert(Error::spec_from_code(v.spec_code()) == Some(v)),
        Error::InvalidFramebufferOperation => assert(Error::spec_from_code(v.spec_code()) == Some(v)),
        Error::OutOfMemory => assert(Error::spec_from_code(v.spec_code()) == Some(v)),
        Error::ContextLostWebgl => assert(Error::spec_from_code(v.spec_code()) == Some(v)),
    }
}

/// Winding orientations accepted by `front_face`.
#[derive(Debug, Clone, Copy, PartialEq, Eq, Structural)]
pub enum FrontFaceDirection {
    CW,
    CCW,
}

impl FrontFaceDirection {
    /// The numeric code the external specification fixes for this variant.
    pub open spec fn spec_code(self) -> u32 {
        match self {
            FrontFaceDirection::CW => 0x0900,
            FrontFaceDirection::CCW => 0x0901,
        }
    }

    pub fn code(self) -> (c: u32)
        ensures
            c == self.spec_code(),
    {
        match self {
            FrontFaceDirection::CW => 0x0900,
            FrontFaceDirection::CCW => 0x0901,
        }
    }
}

/// Comparison functions accepted by `depth_func`.
#[derive(Debug, Clone, Copy, PartialEq, Eq, Structural)]
pub enum DepthTest {
    Never,
    Always,
    Less,
    Equal,
    Lequal,
    Greater,
    Gequal,
    Notequal,
}

impl DepthTest {
    /// The numeric code the external specification fixes for this variant.
    pub open spec fn spec_code(self) -> u32 {
        match self {
            DepthTest::Never => 0x0200,
            DepthTest::Always => 0x0207,
            DepthTest::Less => 0x0201,
            DepthTest::Equal => 0x0202,
            DepthTest::Lequal => 0x0203,
            DepthTest::Greater => 0x0204,
            DepthTest::Gequal => 0x0206,
            DepthTest::Notequal => 0x0205,
        }
    }

    pub fn code(self) -> (c: u32)
        ensures
            c == self.spec_code(),
    {
        match self {
            DepthTest::Never => 0x0200,
            DepthTest::Always => 0x0207,
            DepthTest::Less => 0x0201,
            DepthTest::Equal => 0x0202,
            DepthTest::Lequal => 0x0203,
            DepthTest::Greater => 0x0204,
            DepthTest::Gequal => 0x0206,
            DepthTest::Notequal => 0x0205,
        }
    }
}

/// Comparison functions accepted by `stencil_func`.
#[derive(Debug, Clone, Copy, PartialEq, Eq, Structural)]
pub enum StencilTest {
    Never,
    Always,
    Less,
    Equal,
    Lequal,
    Greater,
    Gequal,
    Notequal,
}

impl StencilTest {
    /// The numeric code the external specification fixes for this variant.
    pub open spec fn spec_code(self) -> u32 {
        match self {
            StencilTest::Never => 0x0200,
            StencilTest::Always => 0x0207,
            StencilTest::Less => 0x0201,
            StencilTest::Equal => 0x0202,
            StencilTest::Lequal => 0x0203,
            StencilTest::Greater => 0x0204,
            StencilTest::Gequal => 0x0206,
            StencilTest::Notequal => 0x0205,
        }
    }

    pub fn code(self) -> (c: u32)
        ensures
            c == self.spec_code(),
    {
        match self {
            StencilTest::Never => 0x0200,
            StencilTest::Always => 0x0207,
            StencilTest::Less => 0x0201,
            StencilTest::Equal => 0x0202,
            StencilTest::Lequal => 0x0203,
            StencilTest::Greater => 0x0204,
            StencilTest::Gequal => 0x0206,
            StencilTest::Notequal => 0x0205,
        }
    }
}

/// Update actions accepted by `stencil_op`.
#[derive(Debug, Clone, Copy, PartialEq, Eq, Structural)]
pub enum StencilAction {
    Zero,
    Keep,
    Replace,
    Incr,
    Decr,
    Invert,
    IncrWrap,
    DecrWrap,
}

impl StencilAction {
    /// The numeric code the external specification fixes for this variant.
    pub open spec fn spec_code(self) -> u32 {
        match self {
            StencilAction::Zero => 0,
            StencilAction::Keep => 0x1E00,
            StencilAction::Replace => 0x1E01,
            StencilAction::Incr => 0x1E02,
            StencilAction::Decr => 0x1E03,
            StencilAction::Invert => 0x150A,
            StencilAction::IncrWrap => 0x8507,
            StencilAction::DecrWrap => 0x8508,
        }
    }

    pub fn code(self) -> (c: u32)
        ensures
            c == self.spec_code(),
    {
        match self {
            StencilAction::Zero => 0,
            StencilAction::Keep => 0x1E00,
            StencilAction::Replace => 0x1E01,
            StencilAction::Incr => 0x1E02,
            StencilAction::Decr => 0x1E03,
            StencilAction::Invert => 0x150A,
            StencilAction::IncrWrap => 0x8507,
            StencilAction::DecrWrap => 0x8508,
        }
    }
}

/// Texel data types accepted by the pixel transfer calls.
#[derive(Debug, Clone, Copy, PartialEq, Eq, Structural)]
pub enum PixelType {
    UnsignedByte,
    UnsignedShort4444,
    UnsignedShort5551,
    UnsignedShort565,
    Float,
}

impl PixelType {
    /// The numeric code the external specification fixes for this variant.
    pub open spec fn spec_code(self) -> u32 {
        match self {
            PixelType::UnsignedByte => 0x1401,
            PixelType::UnsignedShort4444 => 0x8033,
            PixelType::UnsignedShort5551 => 0x8034,
            PixelType::UnsignedShort565 => 0x8363,
            PixelType::Float => 0x1406,
        }
    }

    pub fn code(self) -> (c: u32)
        ensures
            c == self.spec_code(),
    {
        match self {
            PixelType::UnsignedByte => 0x1401,
            PixelType::UnsignedShort4444 => 0x8033,
            PixelType::UnsignedShort5551 => 0x8034,
            PixelType::UnsignedShort565 => 0x8363,
            PixelType::Float => 0x1406,
        }
    }
}

/// Texel formats of the underlying API.
#[derive(Debug, Clone, Copy, PartialEq, Eq, Structural)]
pub enum PixelFormat {
    DepthComponent,
    Alpha,
    Rgb,
    Rgba,
    Luminance,
    LuminanceAlpha,
}

impl PixelFormat {
    /// The numeric code the external specification fixes for this variant.
    pub open spec fn spec_code(self) -> u32 {
        match self {
            PixelFormat::DepthComponent => 0x1902,
            PixelFormat::Alpha => 0x1906,
            PixelFormat::Rgb => 0x1907,
            PixelFormat::Rgba => 0x1908,
            PixelFormat::Luminance => 0x1909,
            PixelFormat::LuminanceAlpha => 0x190A,
        }
    }

    pub fn code(self) -> (c: u32)
        ensures
            c == self.spec_code(),
    {
        match self {
            PixelFormat::DepthComponent => 0x1902,
            PixelFormat::Alpha => 0x1906,
            PixelFormat::Rgb => 0x1907,
            PixelFormat::Rgba => 0x1908,
            PixelFormat::Luminance => 0x1909,
            PixelFormat::LuminanceAlpha => 0x190A,
        }
    }
}

/// Texel formats accepted by `read_pixels`.
#[derive(Debug, Clone, Copy, PartialEq, Eq, Structural)]
pub enum PixelReadFormat {
    Alpha,
    Rgb,
    Rgba,
}

impl PixelReadFormat {
    /// The numeric code the external specification fixes for this variant.
    pub open spec fn spec_code(self) -> u32 {
        match self {
            PixelReadFormat::Alpha => 0x1906,
            PixelReadFormat::Rgb => 0x1907,
            PixelReadFormat::Rgba => 0x1908,
        }
    }

    pub fn code(self) -> (c: u32)
        ensures
            c == self.spec_code(),
    {
        match self {
            PixelReadFormat::Alpha => 0x1906,
            PixelReadFormat::Rgb => 0x1907,
            PixelReadFormat::Rgba => 0x1908,
        }
    }
}

/// Texel formats accepted by the 2D texture image calls.
#[derive(Debug, Clone, Copy, PartialEq, Eq, Structural)]
pub enum PixelCopyFormat {
    Alpha,
    Rgb,
    Rgba,
    Luminance,
    LuminanceAlpha,
}

impl PixelCopyFormat {
    /// The numeric code the external specification fixes for this variant.
    pub open spec fn spec_code(self) -> u32 {
        match self {
            PixelCopyFormat::Alpha => 0x1906,
            PixelCopyFormat::Rgb => 0x1907,
            PixelCopyFormat::Rgba => 0x1908,
            PixelCopyFormat::Luminance => 0x1909,
            PixelCopyFormat::LuminanceAlpha => 0x190A,
        }
    }

    pub fn code(self) -> (c: u32)
        ensures
            c == self.spec_code(),
    {
        match self {
            PixelCopyFormat::Alpha => 0x1906,
            PixelCopyFormat::Rgb => 0x1907,
            PixelCopyFormat::Rgba => 0x1908,
            PixelCopyFormat::Luminance => 0x1909,
            PixelCopyFormat::LuminanceAlpha => 0x190A,
        }
    }
}

/// Quality preferences accepted by `hint`.
#[derive(Debug, Clone, Copy, PartialEq, Eq, Structural)]
pub enum HintMode {
    DontCare,
    Fastest,
    Nicest,
}

impl HintMode {
    /// The numeric code the external specification fixes for this variant.
    pub open spec fn spec_code(self) -> u32 {
        match self {
            HintMode::DontCare => 0x1100,
            HintMode::Fastest => 0x1101,
            HintMode::Nicest => 0x1102,
        }
    }

    pub fn code(self) -> (c: u32)
        ensures
            c == self.spec_code(),
    {
        match self {
            HintMode::DontCare => 0x1100,
            HintMode::Fastest => 0x1101,
            HintMode::Nicest => 0x1102,
        }
    }
}

/// Behaviours whose quality `hint` sets.
#[derive(Debug, Clone, Copy, PartialEq, Eq, Structural)]
pub enum HintTarget {
    GenerateMipmapHint,
    FragmentShaderDerivativeHint,
}

impl HintTarget {
    /// The numeric code the external specification fixes for this variant.
    pub open spec fn spec_code(self) -> u32 {
        match self {
            HintTarget::GenerateMipmapHint => 0x8192,
            HintTarget::FragmentShaderDerivativeHint => 0x8B8B,
        }
    }

    pub fn code(self) -> (c: u32)
        ensures
            c == self.spec_code(),
    {
        match self {
            HintTarget::GenerateMipmapHint => 0x8192,
            HintTarget::FragmentShaderDerivativeHint => 0x8B8B,
        }
    }
}

/// Texture targets accepted by `bind_texture` and `tex_parameter_i`.
#[derive(Debug, Clone, Copy, PartialEq, Eq, Structural)]
pub enum TextureKind {
    Texture2d,
    TextureCubeMap,
    Texture3d,
    Texture2dArray,
}

impl TextureKind {
    /// The numeric code the external specification fixes for this variant.
    pub open spec fn spec_code(self) -> u32 {
        match self {
            TextureKind::Texture2d => 0x0DE1,
            TextureKind::TextureCubeMap => 0x8513,
            TextureKind::Texture3d => 0x806F,
            TextureKind::Texture2dArray => 0x8C1A,
        }
    }

    pub fn code(self) -> (c: u32)
        ensures
            c == self.spec_code(),
    {
        match self {
            TextureKind::Texture2d => 0x0DE1,
            TextureKind::TextureCubeMap => 0x8513,
            TextureKind::Texture3d => 0x806F,
            TextureKind::Texture2dArray => 0x8C1A,
        }
    }
}

/// Texture targets accepted by `tex_storage_2d`.
#[derive(Debug, Clone, Copy, PartialEq, Eq, Structural)]
pub enum Texture2DKind {
    Texture2d,
    TextureCubeMap,
}

impl Texture2DKind {
    /// The numeric code the external specification fixes for this variant.
    pub open spec fn spec_code(self) -> u32 {
        match self {
            Texture2DKind::Texture2d => 0x0DE1,
            Texture2DKind::TextureCubeMap => 0x8513,
        }
    }

    pub fn code(self) -> (c: u32)
        ensures
            c == self.spec_code(),
    {
        match self {
            Texture2DKind::Texture2d => 0x0DE1,
            Texture2DKind::TextureCubeMap => 0x8513,
        }
    }
}

/// Texture targets accepted by `tex_storage_3d`.
#[derive(Debug, Clone, Copy, PartialEq, Eq, Structural)]
pub enum Texture3DKind {
    Texture3d,
    Texture2dArray,
}

impl Texture3DKind {
    /// The numeric code the external specification fixes for this variant.
    pub open spec fn spec_code(self) -> u32 {
        match self {
            Texture3DKind::Texture3d => 0x806F,
            Texture3DKind::Texture2dArray => 0x8C1A,
        }
    }

    pub fn code(self) -> (c: u32)
        ensures
            c == self.spec_code(),
    {
        match self {
            Texture3DKind::Texture3d => 0x806F,
            Texture3DKind::Texture2dArray => 0x8C1A,
        }
    }
}

/// Texture properties accepted by the `tex_parameter` calls.
#[derive(Debug, Clone, Copy, PartialEq, Eq, Structural)]
pub enum TextureParameter {
    MagFilter,
    MinFilter,
    WrapS,
    WrapT,
    BaseLevel,
    CompareFunc,
    CompareMode,
    ImmutableFormat,
    ImmutableLevels,
    MaxLevel,
    MaxLod,
    MinLod,
    WrapR,
}

impl TextureParameter {
    /// The numeric code the external specification fixes for this variant.
    pub open spec fn spec_code(self) -> u32 {
        match self {
            TextureParameter::MagFilter => 0x2800,
            TextureParameter::MinFilter => 0x2801,
            TextureParameter::WrapS => 0x2802,
            TextureParameter::WrapT => 0x2803,
            TextureParameter::BaseLevel => 0x813C,
            TextureParameter::CompareFunc => 0x884D,
            TextureParameter::CompareMode => 0x884C,
            TextureParameter::ImmutableFormat => 0x912F,
            TextureParameter::ImmutableLevels => 0x82DF,
            TextureParameter::MaxLevel => 0x813D,
            TextureParameter::MaxLod => 0x813B,
            TextureParameter::MinLod => 0x813A,
            TextureParameter::WrapR => 0x8072,
        }
    }

    pub fn code(self) -> (c: u32)
        ensures
            c == self.spec_code(),
    {
        match self {
            TextureParameter::MagFilter => 0x2800,
            TextureParameter::MinFilter => 0x2801,
            TextureParameter::WrapS => 0x2802,
            TextureParameter::WrapT => 0x2803,
            TextureParameter::BaseLevel => 0x813C,
            TextureParameter::CompareFunc => 0x884D,
            TextureParameter::CompareMode => 0x884C,
            TextureParameter::ImmutableFormat => 0x912F,
            TextureParameter::ImmutableLevels => 0x82DF,
            TextureParameter::MaxLevel => 0x813D,
            TextureParameter::MaxLod => 0x813B,
            TextureParameter::MinLod => 0x813A,
            TextureParameter::WrapR => 0x8072,
        }
    }
}

/// Texture faces accepted by the 2D texture image calls.
#[derive(Debug, Clone, Copy, PartialEq, Eq, Structural)]
pub enum TextureBindPoint {
    Texture2d,
    TextureCubeMapPositiveX,
    TextureCubeMapNegativeX,
    TextureCubeMapPositiveY,
    TextureCubeMapNegativeY,
    TextureCubeMapPositiveZ,
    TextureCubeMapNegativeZ,
}

impl TextureBindPoint {
    /// The numeric code the external specification fixes for this variant.
    pub open spec fn spec_code(self) -> u32 {
        match self {
            TextureBindPoint::Texture2d => 0x0DE1,
            TextureBindPoint::TextureCubeMapPositiveX => 0x8515,
            TextureBindPoint::TextureCubeMapNegativeX => 0x8516,
            TextureBindPoint::TextureCubeMapPositiveY => 0x8517,
            TextureBindPoint::TextureCubeMapNegativeY => 0x8518,
            TextureBindPoint::TextureCubeMapPositiveZ => 0x8519,
            TextureBindPoint::TextureCubeMapNegativeZ => 0x851A,
        }
    }

    pub fn code(self) -> (c: u32)
        ensures
            c == self.spec_code(),
    {
        match self {
            TextureBindPoint::Texture2d => 0x0DE1,
            TextureBindPoint::TextureCubeMapPositiveX => 0x8515,
            TextureBindPoint::TextureCubeMapNegativeX => 0x8516,
            TextureBindPoint::TextureCubeMapPositiveY => 0x8517,
            TextureBindPoint::TextureCubeMapNegativeY => 0x8518,
            TextureBindPoint::TextureCubeMapPositiveZ => 0x8519,
            TextureBindPoint::TextureCubeMapNegativeZ => 0x851A,
        }
    }
}

/// Magnification filters for the texture filter parameters.
#[derive(Debug, Clone, Copy, PartialEq, Eq, Structural)]
pub enum TextureMagFilter {
    Nearest,
    Linear,
}

impl TextureMagFilter {
    /// The numeric code the external specification fixes for this variant.
    pub open spec fn spec_code(self) -> u32 {
        match self {
            TextureMagFilter::Nearest => 0x2600,
            TextureMagFilter::Linear => 0x2601,
        }
    }

    pub fn code(self) -> (c: u32)
        ensures
            c == self.spec_code(),
    {
        match self {
            TextureMagFilter::Nearest => 0x2600,
            TextureMagFilter::Linear => 0x2601,
        }
    }
}

/// Minification filters for the texture filter parameters.
#[derive(Debug, Clone, Copy, PartialEq, Eq, Structural)]
pub enum TextureMinFilter {
    Nearest,
    Linear,
    NearestMipmapNearest,
    LinearMipmapNearest,
    NearestMipmapLinear,
    LinearMipmapLinear,
}

impl TextureMinFilter {
    /// The numeric code the external specification fixes for this variant.
    pub open spec fn spec_code(self) -> u32 {
        match self {
            TextureMinFilter::Nearest => 0x2600,
            TextureMinFilter::Linear => 0x2601,
            TextureMinFilter::NearestMipmapNearest => 0x2700,
            TextureMinFilter::LinearMipmapNearest => 0x2701,
            TextureMinFilter::NearestMipmapLinear => 0x2702,
            TextureMinFilter::LinearMipmapLinear => 0x2703,
        }
    }

    pub fn code(self) -> (c: u32)
        ensures
            c == self.spec_code(),
    {
        match self {
            TextureMinFilter::Nearest => 0x2600,
            TextureMinFilter::Linear => 0x2601,
            TextureMinFilter::NearestMipmapNearest => 0x2700,
            TextureMinFilter::LinearMipmapNearest => 0x2701,
            TextureMinFilter::NearestMipmapLinear => 0x2702,
            TextureMinFilter::LinearMipmapLinear => 0x2703,
        }
    }
}

/// Wrapping modes for the texture wrap parameters.
#[derive(Debug, Clone, Copy, PartialEq, Eq, Structural)]
pub enum TextureWrap {
    Repeat,
    ClampToEdge,
    MirroredRepeat,
}

impl TextureWrap {
    /// The numeric code the external specification fixes for this variant.
    pub open spec fn spec_code(self) -> u32 {
        match self {
            TextureWrap::Repeat => 0x2901,
            TextureWrap::ClampToEdge => 0x812F,
            TextureWrap::MirroredRepeat => 0x8370,
        }
    }

    pub fn code(self) -> (c: u32)
        ensures
            c == self.spec_code(),
    {
        match self {
            TextureWrap::Repeat => 0x2901,
            TextureWrap::ClampToEdge => 0x812F,
            TextureWrap::MirroredRepeat => 0x8370,
        }
    }
}

/// Framebuffer and renderbuffer constants of the underlying API.
#[derive(Debug, Clone, Copy, PartialEq, Eq, Structural)]
pub enum Buffers {
    Framebuffer,
    Renderbuffer,
    Rgba4,
    Rgb5A1,
    Rgb565,
    DepthComponent16,
    StencilIndex,
    StencilIndex8,
    DepthStencil,
    RenderbufferWidth,
    RenderbufferHeight,
    RenderbufferInternalFormat,
    RenderbufferRedSize,
    RenderbufferGreenSize,
    RenderbufferBlueSize,
    RenderbufferAlphaSize,
    RenderbufferDepthSize,
    RenderbufferStencilSize,
    FramebufferAttachmentObjectType,
    FramebufferAttachmentObjectName,
    FramebufferAttachmentTextureLevel,
    FramebufferAttachmentTextureCubeMapFace,
    ColorAttachment0,
    DepthAttachment,
    StencilAttachment,
    DepthStencilAttachment,
    NoBuffer,
    FramebufferComplete,
    FramebufferIncompleteAttachment,
    FramebufferIncompleteMissingAttachment,
    FramebufferIncompleteDimensions,
    FramebufferUnsupported,
    FramebufferBinding,
    RenderbufferBinding,
    MaxRenderbufferSize,
    InvalidFramebufferOperation,
}

impl Buffers {
    /// The numeric code the external specification fixes for this variant.
    pub open spec fn spec_code(self) -> u32 {
        match self {
            Buffers::Framebuffer => 0x8D40,
            Buffers::Renderbuffer => 0x8D41,
            Buffers::Rgba4 => 0x8056,
            Buffers::Rgb5A1 => 0x8057,
            Buffers::Rgb565 => 0x8D62,
            Buffers::DepthComponent16 => 0x81A5,
            Buffers::StencilIndex => 0x1901,
            Buffers::StencilIndex8 => 0x8D48,
            Buffers::DepthStencil => 0x84F9,
            Buffers::RenderbufferWidth => 0x8D42,
            Buffers::RenderbufferHeight => 0x8D43,
            Buffers::RenderbufferInternalFormat => 0x8D44,
            Buffers::RenderbufferRedSize => 0x8D50,
            Buffers::RenderbufferGreenSize => 0x8D51,
            Buffers::RenderbufferBlueSize => 0x8D52,
            Buffers::RenderbufferAlphaSize => 0x8D53,
            Buffers::RenderbufferDepthSize => 0x8D54,
            Buffers::RenderbufferStencilSize => 0x8D55,
            Buffers::FramebufferAttachmentObjectType => 0x8CD0,
            Buffers::FramebufferAttachmentObjectName => 0x8CD1,
            Buffers::FramebufferAttachmentTextureLevel => 0x8CD2,
            Buffers::FramebufferAttachmentTextureCubeMapFace => 0x8CD3,
            Buffers::ColorAttachment0 => 0x8CE0,
            Buffers::DepthAttachment => 0x8D00,
            Buffers::StencilAttachment => 0x8D20,
            Buffers::DepthStencilAttachment => 0x821A,
            Buffers::NoBuffer => 0,
            Buffers::FramebufferComplete => 0x8CD5,
            Buffers::FramebufferIncompleteAttachment => 0x8CD6,
            Buffers::FramebufferIncompleteMissingAttachment => 0x8CD7,
            Buffers::FramebufferIncompleteDimensions => 0x8CD9,
            Buffers::FramebufferUnsupported => 0x8CDD,
            Buffers::FramebufferBinding => 0x8CA6,
            Buffers::RenderbufferBinding => 0x8CA7,
            Buffers::MaxRenderbufferSize => 0x84E8,
            Buffers::InvalidFramebufferOperation => 0x0506,
        }
    }

    pub fn code(self) -> (c: u32)
        ensures
            c == self.spec_code(),
    {
        match self {
            Buffers::Framebuffer => 0x8D40,
            Buffers::Renderbuffer => 0x8D41,
            Buffers::Rgba4 => 0x8056,
            Buffers::Rgb5A1 => 0x8057,
            Buffers::Rgb565 => 0x8D62,
            Buffers::DepthComponent16 => 0x81A5,
            Buffers::StencilIndex => 0x1901,
            Buffers::StencilIndex8 => 0x8D48,
            Buffers::DepthStencil => 0x84F9,
            Buffers::RenderbufferWidth => 0x8D42,
            Buffers::RenderbufferHeight => 0x8D43,
            Buffers::RenderbufferInternalFormat => 0x8D44,
            Buffers::RenderbufferRedSize => 0x8D50,
            Buffers::RenderbufferGreenSize => 0x8D51,
            Buffers::RenderbufferBlueSize => 0x8D52,
            Buffers::RenderbufferAlphaSize => 0x8D53,
            Buffers::RenderbufferDepthSize => 0x8D54,
            Buffers::RenderbufferStencilSize => 0x8D55,
            Buffers::FramebufferAttachmentObjectType => 0x8CD0,
            Buffers::FramebufferAttachmentObjectName => 0x8CD1,
            Buffers::FramebufferAttachmentTextureLevel => 0x8CD2,
            Buffers::FramebufferAttachmentTextureCubeMapFace => 0x8CD3,
            Buffers::ColorAttachment0 => 0x8CE0,
            Buffers::DepthAttachment => 0x8D00,
            Buffers::StencilAttachment => 0x8D20,
            Buffers::DepthStencilAttachment => 0x821A,
            Buffers::NoBuffer => 0,
            Buffers::FramebufferComplete => 0x8CD5,
            Buffers::FramebufferIncompleteAttachment => 0x8CD6,
            Buffers::FramebufferIncompleteMissingAttachment => 0x8CD7,
            Buffers::FramebufferIncompleteDimensions => 0x8CD9,
            Buffers::FramebufferUnsupported => 0x8CDD,
            Buffers::FramebufferBinding => 0x8CA6,
            Buffers::RenderbufferBinding => 0x8CA7,
            Buffers::MaxRenderbufferSize => 0x84E8,
            Buffers::InvalidFramebufferOperation => 0x0506,
        }
    }
}

/// Storage modes accepted by `pixel_storei`.
#[derive(Debug, Clone, Copy, PartialEq, Eq, Structural)]
pub enum PixelStorageMode {
    UnpackFlipYWebgl,
    UnpackPremultiplyAlphaWebgl,
    UnpackColorspaceConversionWebgl,
    PackAlignment,
    UnpackAlignment,
    PackRowLength,
    PackSkipPixels,
    PackSkipRows,
    UnpackRowLength,
    UnpackImageHeight,
    UnpackSkipPixels,
    UnpackSkipRows,
    UnpackSkipImages,
}

impl PixelStorageMode {
    /// The numeric code the external specification fixes for this variant.
    pub open spec fn spec_code(self) -> u32 {
        match self {
            PixelStorageMode::UnpackFlipYWebgl => 0x9240,
            PixelStorageMode::UnpackPremultiplyAlphaWebgl => 0x9241,
            PixelStorageMode::UnpackColorspaceConversionWebgl => 0x9243,
            PixelStorageMode::PackAlignment => 0x0D05,
            PixelStorageMode::UnpackAlignment => 0x0CF5,
            PixelStorageMode::PackRowLength => 0x0D02,
            PixelStorageMode::PackSkipPixels => 0x0D04,
            PixelStorageMode::PackSkipRows => 0x0D03,
            PixelStorageMode::UnpackRowLength => 0x0CF2,
            PixelStorageMode::UnpackImageHeight => 0x806E,
            PixelStorageMode::UnpackSkipPixels => 0x0CF4,
            PixelStorageMode::UnpackSkipRows => 0x0CF3,
            PixelStorageMode::UnpackSkipImages => 0x806D,
        }
    }

    pub fn code(self) -> (c: u32)
        ensures
            c == self.spec_code(),
    {
        match self {
            PixelStorageMode::UnpackFlipYWebgl => 0x9240,
            PixelStorageMode::UnpackPremultiplyAlphaWebgl => 0x9241,
            PixelStorageMode::UnpackColorspaceConversionWebgl => 0x9243,
            PixelStorageMode::PackAlignment => 0x0D05,
            PixelStorageMode::UnpackAlignment => 0x0CF5,
            PixelStorageMode::PackRowLength => 0x0D02,
            PixelStorageMode::PackSkipPixels => 0x0D04,
            PixelStorageMode::PackSkipRows => 0x0D03,
            PixelStorageMode::UnpackRowLength => 0x0CF2,
            PixelStorageMode::UnpackImageHeight => 0x806E,
            PixelStorageMode::UnpackSkipPixels => 0x0CF4,
            PixelStorageMode::UnpackSkipRows => 0x0CF3,
            PixelStorageMode::UnpackSkipImages => 0x806D,
        }
    }
}

/// Numeric formats accepted by `get_shader_precision_format`.
#[derive(Debug, Clone, Copy, PartialEq, Eq, Structural)]
pub enum ShaderPrecision {
    LowFloat,
    MediumFloat,
    HighFloat,
    LowInt,
    MediumInt,
    HighInt,
}

impl ShaderPrecision {
    /// The numeric code the external specification fixes for this variant.
    pub open spec fn spec_code(self) -> u32 {
        match self {
            ShaderPrecision::LowFloat => 0x8DF0,
            ShaderPrecision::MediumFloat => 0x8DF1,
            ShaderPrecision::HighFloat => 0x8DF2,
            ShaderPrecision::LowInt => 0x8DF3,
            ShaderPrecision::MediumInt => 0x8DF4,
            ShaderPrecision::HighInt => 0x8DF5,
        }
    }

    pub fn code(self) -> (c: u32)
        ensures
            c == self.spec_code(),
    {
        match self {
            ShaderPrecision::LowFloat => 0x8DF0,
            ShaderPrecision::MediumFloat => 0x8DF1,
            ShaderPrecision::HighFloat => 0x8DF2,
            ShaderPrecision::LowInt => 0x8DF3,
            ShaderPrecision::MediumInt => 0x8DF4,
            ShaderPrecision::HighInt => 0x8DF5,
        }
    }
}

/// Types of active uniform variables.
#[derive(Debug, Clone, Copy, PartialEq, Eq, Structural)]
pub enum UniformType {
    FloatVec2,
    FloatVec3,
    FloatVec4,
    IntVec2,
    IntVec3,
    IntVec4,
    Bool,
    BoolVec2,
    BoolVec3,
    BoolVec4,
    FloatMat2,
    FloatMat3,
    FloatMat4,
    Sampler2d,
    SamplerCube,
}

impl UniformType {
    /// The numeric code the external specification fixes for this variant.
    pub open spec fn spec_code(self) -> u32 {
        match self {
            UniformType::FloatVec2 => 0x8B50,
            UniformType::FloatVec3 => 0x8B51,
            UniformType::FloatVec4 => 0x8B52,
            UniformType::IntVec2 => 0x8B53,
            UniformType::IntVec3 => 0x8B54,
            UniformType::IntVec4 => 0x8B55,
            UniformType::Bool => 0x8B56,
            UniformType::BoolVec2 => 0x8B57,
            UniformType::BoolVec3 => 0x8B58,
            UniformType::BoolVec4 => 0x8B59,
            UniformType::FloatMat2 => 0x8B5A,
            UniformType::FloatMat3 => 0x8B5B,
            UniformType::FloatMat4 => 0x8B5C,
            UniformType::Sampler2d => 0x8B5E,
            UniformType::SamplerCube => 0x8B60,
        }
    }

    pub fn code(self) -> (c: u32)
        ensures
            c == self.spec_code(),
    {
        match self {
            UniformType::FloatVec2 => 0x8B50,
            UniformType::FloatVec3 => 0x8B51,
            UniformType::FloatVec4 => 0x8B52,
            UniformType::IntVec2 => 0x8B53,
            UniformType::IntVec3 => 0x8B54,
            UniformType::IntVec4 => 0x8B55,
            UniformType::Bool => 0x8B56,
            UniformType::BoolVec2 => 0x8B57,
            UniformType::BoolVec3 => 0x8B58,
            UniformType::BoolVec4 => 0x8B59,
            UniformType::FloatMat2 => 0x8B5A,
            UniformType::FloatMat3 => 0x8B5B,
            UniformType::FloatMat4 => 0x8B5C,
            UniformType::Sampler2d => 0x8B5E,
            UniformType::SamplerCube => 0x8B60,
        }
    }
}

/// Compressed texture formats of the underlying API.
#[derive(Debug, Clone, Copy, PartialEq, Eq, Structural)]
pub enum TextureCompression {
    RgbDxt1,
    RgbaDxt1,
    RgbaDxt3,
    RgbaDxt5,
}

impl TextureCompression {
    /// The numeric code the external specification fixes for this variant.
    pub open spec fn spec_code(self) -> u32 {
        match self {
            TextureCompression::RgbDxt1 => 0x83F0,
            TextureCompression::RgbaDxt1 => 0x83F1,
            TextureCompression::RgbaDxt3 => 0x83F2,
            TextureCompression::RgbaDxt5 => 0x83F3,
        }
    }

    pub fn code(self) -> (c: u32)
        ensures
            c == self.spec_code(),
    {
        match self {
            TextureCompression::RgbDxt1 => 0x83F0,
            TextureCompression::RgbaDxt1 => 0x83F1,
            TextureCompression::RgbaDxt3 => 0x83F2,
            TextureCompression::RgbaDxt5 => 0x83F3,
        }
    }
}

/// Texture units accepted by `active_texture`.
#[derive(Debug, Clone, Copy, PartialEq, Eq, Structural)]
pub enum TextureUnit {
    Texture0,
    Texture1,
    Texture2,
    Texture3,
    Texture4,
    Texture5,
    Texture6,
    Texture7,
    Texture8,
    Texture9,
    Texture10,
    Texture11,
    Texture12,
    Texture13,
    Texture14,
    Texture15,
    Texture16,
    Texture17,
    Texture18,
    Texture19,
    Texture20,
    Texture21,
    Texture22,
    Texture23,
    Texture24,
    Texture25,
    Texture26,
    Texture27,
    Texture28,
    Texture29,
    Texture30,
    Texture31,
}

impl TextureUnit {
    /// The numeric code the external specification fixes for this variant.
    pub open spec fn spec_code(self) -> u32 {
        match self {
            TextureUnit::Texture0 => 0x84C0,
            TextureUnit::Texture1 => 0x84C1,
            TextureUnit::Texture2 => 0x84C2,
            TextureUnit::Texture3 => 0x84C3,
            TextureUnit::Texture4 => 0x84C4,
            TextureUnit::Texture5 => 0x84C5,
            TextureUnit::Texture6 => 0x84C6,
            TextureUnit::Texture7 => 0x84C7,
            TextureUnit::Texture8 => 0x84C8,
            TextureUnit::Texture9 => 0x84C9,
            TextureUnit::Texture10 => 0x84CA,
            TextureUnit::Texture11 => 0x84CB,
            TextureUnit::Texture12 => 0x84CC,
            TextureUnit::Texture13 => 0x84CD,
            TextureUnit::Texture14 => 0x84CE,
            TextureUnit::Texture15 => 0x84CF,
            TextureUnit::Texture16 => 0x84D0,
            TextureUnit::Texture17 => 0x84D1,
            TextureUnit::Texture18 => 0x84D2,
            TextureUnit::Texture19 => 0x84D3,
            TextureUnit::Texture20 => 0x84D4,
            TextureUnit::Texture21 => 0x84D5,
            TextureUnit::Texture22 => 0x84D6,
            TextureUnit::Texture23 => 0x84D7,
            TextureUnit::Texture24 => 0x84D8,
            TextureUnit::Texture25 => 0x84D9,
            TextureUnit::Texture26 => 0x84DA,
            TextureUnit::Texture27 => 0x84DB,
            TextureUnit::Texture28 => 0x84DC,
            TextureUnit::Texture29 => 0x84DD,
            TextureUnit::Texture30 => 0x84DE,
            TextureUnit::Texture31 => 0x84DF,
        }
    }

    pub fn code(self) -> (c: u32)
        ensures
            c == self.spec_code(),
    {
        match self {
            TextureUnit::Texture0 => 0x84C0,
            TextureUnit::Texture1 => 0x84C1,
            TextureUnit::Texture2 => 0x84C2,
            TextureUnit::Texture3 => 0x84C3,
            TextureUnit::Texture4 => 0x84C4,
            TextureUnit::Texture5 => 0x84C5,
            TextureUnit::Texture6 => 0x84C6,
            TextureUnit::Texture7 => 0x84C7,
            TextureUnit::Texture8 => 0x84C8,
            TextureUnit::Texture9 => 0x84C9,
            TextureUnit::Texture10 => 0x84CA,
            TextureUnit::Texture11 => 0x84CB,
            TextureUnit::Texture12 => 0x84CC,
            TextureUnit::Texture13 => 0x84CD,
            TextureUnit::Texture14 => 0x84CE,
            TextureUnit::Texture15 => 0x84CF,
            TextureUnit::Texture16 => 0x84D0,
            TextureUnit::Texture17 => 0x84D1,
            TextureUnit::Texture18 => 0x84D2,
            TextureUnit::Texture19 => 0x84D3,
            TextureUnit::Texture20 => 0x84D4,
            TextureUnit::Texture21 => 0x84D5,
            TextureUnit::Texture22 => 0x84D6,
            TextureUnit::Texture23 => 0x84D7,
            TextureUnit::Texture24 => 0x84D8,
            TextureUnit::Texture25 => 0x84D9,
            TextureUnit::Texture26 => 0x84DA,
            TextureUnit::Texture27 => 0x84DB,
            TextureUnit::Texture28 => 0x84DC,
            TextureUnit::Texture29 => 0x84DD,
            TextureUnit::Texture30 => 0x84DE,
            TextureUnit::Texture31 => 0x84DF,
        }
    }
}

/// Framebuffer targets accepted by `bind_framebuffer`.
#[derive(Debug, Clone, Copy, PartialEq, Eq, Structural)]
pub enum FramebufferKind {
    Framebuffer,
    DrawFramebuffer,
    ReadFramebuffer,
}

impl FramebufferKind {
    /// The numeric code the external specification fixes for this variant.
    pub open spec fn spec_code(self) -> u32 {
        match self {
            FramebufferKind::Framebuffer => 0x8D40,
            FramebufferKind::DrawFramebuffer => 0x8CA9,
            FramebufferKind::ReadFramebuffer => 0x8CA8,
        }
    }

    pub fn code(self) -> (c: u32)
        ensures
            c == self.spec_code(),
    {
        match self {
            FramebufferKind::Framebuffer => 0x8D40,
            FramebufferKind::DrawFramebuffer => 0x8CA9,
            FramebufferKind::ReadFramebuffer => 0x8CA8,
        }
    }
}

/// Completeness results of `check_framebuffer_status`.
#[derive(Debug, Clone, Copy, PartialEq, Eq, Structural)]
pub enum FramebufferStatus {
    FramebufferComplete,
    FramebufferIncompleteAttachment,
    FramebufferIncompleteMissingAttachment,
    FramebufferIncompleteDimensions,
    FramebufferUnsupported,
    FramebufferIncompleteMultisample,
}

impl FramebufferStatus {
    /// The numeric code the external specification fixes for this variant.
    pub open spec fn spec_code(self) -> u32 {
        match self {
            FramebufferStatus::FramebufferComplete => 0x8CD5,
            FramebufferStatus::FramebufferIncompleteAttachment => 0x8CD6,
            FramebufferStatus::FramebufferIncompleteMissingAttachment => 0x8CD7,
            FramebufferStatus::FramebufferIncompleteDimensions => 0x8CD9,
            FramebufferStatus::FramebufferUnsupported => 0x8CDD,
            FramebufferStatus::FramebufferIncompleteMultisample => 0x8D56,
        }
    }

    pub fn code(self) -> (c: u32)
        ensures
            c == self.spec_code(),
    {
        match self {
            FramebufferStatus::FramebufferComplete => 0x8CD5,
            FramebufferStatus::FramebufferIncompleteAttachment => 0x8CD6,
            FramebufferStatus::FramebufferIncompleteMissingAttachment => 0x8CD7,
            FramebufferStatus::FramebufferIncompleteDimensions => 0x8CD9,
            FramebufferStatus::FramebufferUnsupported => 0x8CDD,
            FramebufferStatus::FramebufferIncompleteMultisample => 0x8D56,
        }
    }

    /// The variant whose code is `c`, if `c` belongs to this axis.
    pub open spec fn spec_from_code(c: u32) -> Option<FramebufferStatus> {
        if c == 0x8CD5 { Some(FramebufferStatus::FramebufferComplete)
        } else if c == 0x8CD6 { Some(FramebufferStatus::FramebufferIncompleteAttachment)
        } else if c == 0x8CD7 { Some(FramebufferStatus::FramebufferIncompleteMissingAttachment)
        } else if c == 0x8CD9 { Some(FramebufferStatus::FramebufferIncompleteDimensions)
        } else if c == 0x8CDD { Some(FramebufferStatus::FramebufferUnsupported)
        } else if c == 0x8D56 { Some(FramebufferStatus::FramebufferIncompleteMultisample)
        } else { None }
    }

    pub fn from_code(c: u32) -> (r: Option<FramebufferStatus>)
        ensures
            r == FramebufferStatus::spec_from_code(c),
            r matches Some(v) ==> v.spec_code() == c,
    {
        if c == 0x8CD5 { Some(FramebufferStatus::FramebufferComplete)
        } else if c == 0x8CD6 { Some(FramebufferStatus::FramebufferIncompleteAttachment)
        } else if c == 0x8CD7 { Some(FramebufferStatus::FramebufferIncompleteMissingAttachment)
        } else if c == 0x8CD9 { Some(FramebufferStatus::FramebufferIncompleteDimensions)
        } else if c == 0x8CDD { Some(FramebufferStatus::FramebufferUnsupported)
        } else if c == 0x8D56 { Some(FramebufferStatus::FramebufferIncompleteMultisample)
        } else {
            None
        }
    }
}

/// Decoding is a left inverse of encoding: every variant is recovered
/// exactly from its own code.
pub proof fn lemma_framebuffer_status_code_roundtrip(v: FramebufferStatus)
    ensures
        FramebufferStatus::spec_from_code(v.spec_code()) == Some(v),
{
    match v {
        FramebufferStatus::FramebufferComplete => assert(FramebufferStatus::spec_from_code(v.spec_code()) == Some(v)),
        FramebufferStatus::FramebufferIncompleteAttachment => assert(FramebufferStatus::spec_from_code(v.spec_code()) == Some(v)),
        FramebufferStatus::FramebufferIncompleteMissingAttachment => assert(FramebufferStatus::spec_from_code(v.spec_code()) == Some(v)),
        FramebufferStatus::FramebufferIncompleteDimensions => assert(FramebufferStatus::spec_from_code(v.spec_code()) == Some(v)),
        FramebufferStatus::FramebufferUnsupported => assert(FramebufferStatus::spec_from_code(v.spec_code()) == Some(v)),
        FramebufferStatus::FramebufferIncompleteMultisample => assert(FramebufferStatus::spec_from_code(v.spec_code()) == Some(v)),
    }
}

/// Renderbuffer targets accepted by the renderbuffer calls.
#[derive(Debug, Clone, Copy, PartialEq, Eq, Structural)]
pub enum RenderbufferKind {
    Renderbuffer,
}

impl RenderbufferKind {
    /// The numeric code the external specification fixes for this variant.
    pub open spec fn spec_code(self) -> u32 {
        match self {
            RenderbufferKind::Renderbuffer => 0x8D41,
        }
    }

    pub fn code(self) -> (c: u32)
        ensures
            c == self.spec_code(),
    {
        match self {
            RenderbufferKind::Renderbuffer => 0x8D41,
        }
    }
}

/// Attachment points accepted by `framebuffer_renderbuffer`.
#[derive(Debug, Clone, Copy, PartialEq, Eq, Structural)]
pub enum Attachment {
    ColorAttachment0,
    DepthAttachment,
    StencilAttachment,
    DepthStencilAttachment,
    ColorAttachment1,
    ColorAttachment2,
    ColorAttachment3,
    ColorAttachment4,
    ColorAttachment5,
    ColorAttachment6,
    ColorAttachment7,
    ColorAttachment8,
    ColorAttachment9,
    ColorAttachment10,
    ColorAttachment11,
    ColorAttachment12,
    ColorAttachment13,
    ColorAttachment14,
    ColorAttachment15,
}

impl Attachment {
    /// The numeric code the external specification fixes for this variant.
    pub open spec fn spec_code(self) -> u32 {
        match self {
            Attachment::ColorAttachment0 => 0x8CE0,
            Attachment::DepthAttachment => 0x8D00,
            Attachment::StencilAttachment => 0x8D20,
            Attachment::DepthStencilAttachment => 0x821A,
            Attachment::ColorAttachment1 => 0x8CE1,
            Attachment::ColorAttachment2 => 0x8CE2,
            Attachment::ColorAttachment3 => 0x8CE3,
            Attachment::ColorAttachment4 => 0x8CE4,
            Attachment::ColorAttachment5 => 0x8CE5,
            Attachment::ColorAttachment6 => 0x8CE6,
            Attachment::ColorAttachment7 => 0x8CE7,
            Attachment::ColorAttachment8 => 0x8CE8,
            Attachment::ColorAttachment9 => 0x8CE9,
            Attachment::ColorAttachment10 => 0x8CEA,
            Attachment::ColorAttachment11 => 0x8CEB,
            Attachment::ColorAttachment12 => 0x8CEC,
            Attachment::ColorAttachment13 => 0x8CED,
            Attachment::ColorAttachment14 => 0x8CEE,
            Attachment::ColorAttachment15 => 0x8CEF,
        }
    }

    pub fn code(self) -> (c: u32)
        ensures
            c == self.spec_code(),
    {
        match self {
            Attachment::ColorAttachment0 => 0x8CE0,
            Attachment::DepthAttachment => 0x8D00,
            Attachment::StencilAttachment => 0x8D20,
            Attachment::DepthStencilAttachment => 0x821A,
            Attachment::ColorAttachment1 => 0x8CE1,
            Attachment::ColorAttachment2 => 0x8CE2,
            Attachment::ColorAttachment3 => 0x8CE3,
            Attachment::ColorAttachment4 => 0x8CE4,
            Attachment::ColorAttachment5 => 0x8CE5,
            Attachment::ColorAttachment6 => 0x8CE6,
            Attachment::ColorAttachment7 => 0x8CE7,
            Attachment::ColorAttachment8 => 0x8CE8,
            Attachment::ColorAttachment9 => 0x8CE9,
            Attachment::ColorAttachment10 => 0x8CEA,
            Attachment::ColorAttachment11 => 0x8CEB,
            Attachment::ColorAttachment12 => 0x8CEC,
            Attachment::ColorAttachment13 => 0x8CED,
            Attachment::ColorAttachment14 => 0x8CEE,
            Attachment::ColorAttachment15 => 0x8CEF,
        }
    }
}

/// Renderbuffer properties accepted by `get_renderbuffer_parameter`.
#[derive(Debug, Clone, Copy, PartialEq, Eq, Structural)]
pub enum RenderbufferParameter {
    Width,
    Height,
    GreenSize,
    BlueSize,
    RedSize,
    AlphaSize,
    DepthSize,
    StencilSize,
    Samples,
    Format,
}

impl RenderbufferParameter {
    /// The numeric code the external specification fixes for this variant.
    pub open spec fn spec_code(self) -> u32 {
        match self {
            RenderbufferParameter::Width => 0x8D42,
            RenderbufferParameter::Height => 0x8D43,
            RenderbufferParameter::GreenSize => 0x8D51,
            RenderbufferParameter::BlueSize => 0x8D52,
            RenderbufferParameter::RedSize => 0x8D50,
            RenderbufferParameter::AlphaSize => 0x8D53,
            RenderbufferParameter::DepthSize => 0x8D54,
            RenderbufferParameter::StencilSize => 0x8D55,
            RenderbufferParameter::Samples => 0x8CAB,
            RenderbufferParameter::Format => 0x8D44,
        }
    }

    pub fn code(self) -> (c: u32)
        ensures
            c == self.spec_code(),
    {
        match self {
            RenderbufferParameter::Width => 0x8D42,
            RenderbufferParameter::Height => 0x8D43,
            RenderbufferParameter::GreenSize => 0x8D51,
            RenderbufferParameter::BlueSize => 0x8D52,
            RenderbufferParameter::RedSize => 0x8D50,
            RenderbufferParameter::AlphaSize => 0x8D53,
            RenderbufferParameter::DepthSize => 0x8D54,
            RenderbufferParameter::StencilSize => 0x8D55,
            RenderbufferParameter::Samples => 0x8CAB,
            RenderbufferParameter::Format => 0x8D44,
        }
    }
}

/// Internal formats accepted by `renderbuffer_storage`.
#[derive(Debug, Clone, Copy, PartialEq, Eq, Structural)]
pub enum RenderbufferFormat {
    Rgba4,
    Rgb565,
    Rgb5A1,
    DepthComponent16,
    StencilIndex8,
}

impl RenderbufferFormat {
    /// The numeric code the external specification fixes for this variant.
    pub open spec fn spec_code(self) -> u32 {
        match self {
            RenderbufferFormat::Rgba4 => 0x8056,
            RenderbufferFormat::Rgb565 => 0x8D62,
            RenderbufferFormat::Rgb5A1 => 0x8057,
            RenderbufferFormat::DepthComponent16 => 0x81A5,
            RenderbufferFormat::StencilIndex8 => 0x8D48,
        }
    }

    pub fn code(self) -> (c: u32)
        ensures
            c == self.spec_code(),
    {
        match self {
            RenderbufferFormat::Rgba4 => 0x8056,
            RenderbufferFormat::Rgb565 => 0x8D62,
            RenderbufferFormat::Rgb5A1 => 0x8057,
            RenderbufferFormat::DepthComponent16 => 0x81A5,
            RenderbufferFormat::StencilIndex8 => 0x8D48,
        }
    }

    /// The variant whose code is `c`, if `c` belongs to this axis.
    pub open spec fn spec_from_code(c: u32) -> Option<RenderbufferFormat> {
        if c == 0x8056 { Some(RenderbufferFormat::Rgba4)
        } else if c == 0x8D62 { Some(RenderbufferFormat::Rgb565)
        } else if c == 0x8057 { Some(RenderbufferFormat::Rgb5A1)
        } else if c == 0x81A5 { Some(RenderbufferFormat::DepthComponent16)
        } else if c == 0x8D48 { Some(RenderbufferFormat::StencilIndex8)
        } else { None }
    }

    pub fn from_code(c: u32) -> (r: Option<RenderbufferFormat>)
        ensures
            r == RenderbufferFormat::spec_from_code(c),
            r matches Some(v) ==> v.spec_code() == c,
    {
        if c == 0x8056 { Some(RenderbufferFormat::Rgba4)
        } else if c == 0x8D62 { Some(RenderbufferFormat::Rgb565)
        } else if c == 0x8057 { Some(RenderbufferFormat::Rgb5A1)
        } else if c == 0x81A5 { Some(RenderbufferFormat::DepthComponent16)
        } else if c == 0x8D48 { Some(RenderbufferFormat::StencilIndex8)
        } else {
            None
        }
    }
}

/// Decoding is a left inverse of encoding: every variant is recovered
/// exactly from its own code.
pub proof fn lemma_renderbuffer_format_code_roundtrip(v: RenderbufferFormat)
    ensures
        RenderbufferFormat::spec_from_code(v.spec_code()) == Some(v),
{
    match v {
        RenderbufferFormat::Rgba4 => assert(RenderbufferFormat::spec_from_code(v.spec_code()) == Some(v)),
        RenderbufferFormat::Rgb565 => assert(RenderbufferFormat::spec_from_code(v.spec_code()) == Some(v)),
        RenderbufferFormat::Rgb5A1 => assert(RenderbufferFormat::spec_from_code(v.spec_code()) == Some(v)),
        RenderbufferFormat::DepthComponent16 => assert(RenderbufferFormat::spec_from_code(v.spec_code()) == Some(v)),
        RenderbufferFormat::StencilIndex8 => assert(RenderbufferFormat::spec_from_code(v.spec_code()) == Some(v)),
    }
}

/// Element types accepted by `vertex_attrib_pointer`.
#[derive(Debug, Clone, Copy, PartialEq, Eq, Structural)]
pub enum AttributeType {
    Byte,
    Short,
    UnsignedByte,
    UnsignedShort,
    Float,
    HalfFloat,
}

impl AttributeType {
    /// The numeric code the external specification fixes for this variant.
    pub open spec fn spec_code(self) -> u32 {
        match self {
            AttributeType::Byte => 0x1400,
            AttributeType::Short => 0x1402,
            AttributeType::UnsignedByte => 0x1401,
            AttributeType::UnsignedShort => 0x1403,
            AttributeType::Float => 0x1406,
            AttributeType::HalfFloat => 0x140B,
        }
    }

    pub fn code(self) -> (c: u32)
        ensures
            c == self.spec_code(),
    {
        match self {
            AttributeType::Byte => 0x1400,
            AttributeType::Short => 0x1402,
            AttributeType::UnsignedByte => 0x1401,
            AttributeType::UnsignedShort => 0x1403,
            AttributeType::Float => 0x1406,
            AttributeType::HalfFloat => 0x140B,
        }
    }
}

/// Color sources accepted by `read_buffer`.
#[derive(Debug, Clone, Copy, PartialEq, Eq, Structural)]
pub enum ColorBuffer {
    NoBuffer,
    Back,
    ColorAttachment0,
    ColorAttachment1,
    ColorAttachment2,
    ColorAttachment3,
    ColorAttachment4,
    ColorAttachment5,
    ColorAttachment6,
    ColorAttachment7,
    ColorAttachment8,
    ColorAttachment9,
    ColorAttachment10,
    ColorAttachment11,
    ColorAttachment12,
    ColorAttachment13,
    ColorAttachment14,
    ColorAttachment15,
}

impl ColorBuffer {
    /// The numeric code the external specification fixes for this variant.
    pub open spec fn spec_code(self) -> u32 {
        match self {
            ColorBuffer::NoBuffer => 0,
            ColorBuffer::Back => 0x0405,
            ColorBuffer::ColorAttachment0 => 0x8CE0,
            ColorBuffer::ColorAttachment1 => 0x8CE1,
            ColorBuffer::ColorAttachment2 => 0x8CE2,
            ColorBuffer::ColorAttachment3 => 0x8CE3,
            ColorBuffer::ColorAttachment4 => 0x8CE4,
            ColorBuffer::ColorAttachment5 => 0x8CE5,
            ColorBuffer::ColorAttachment6 => 0x8CE6,
            ColorBuffer::ColorAttachment7 => 0x8CE7,
            ColorBuffer::ColorAttachment8 => 0x8CE8,
            ColorBuffer::ColorAttachment9 => 0x8CE9,
            ColorBuffer::ColorAttachment10 => 0x8CEA,
            ColorBuffer::ColorAttachment11 => 0x8CEB,
            ColorBuffer::ColorAttachment12 => 0x8CEC,
            ColorBuffer::ColorAttachment13 => 0x8CED,
            ColorBuffer::ColorAttachment14 => 0x8CEE,
            ColorBuffer::ColorAttachment15 => 0x8CEF,
        }
    }

    pub fn code(self) -> (c: u32)
        ensures
            c == self.spec_code(),
    {
        match self {
            ColorBuffer::NoBuffer => 0,
            ColorBuffer::Back => 0x0405,
            ColorBuffer::ColorAttachment0 => 0x8CE0,
            ColorBuffer::ColorAttachment1 => 0x8CE1,
            ColorBuffer::ColorAttachment2 => 0x8CE2,
            ColorBuffer::ColorAttachment3 => 0x8CE3,
            ColorBuffer::ColorAttachment4 => 0x8CE4,
            ColorBuffer::ColorAttachment5 => 0x8CE5,
            ColorBuffer::ColorAttachment6 => 0x8CE6,
            ColorBuffer::ColorAttachment7 => 0x8CE7,
            ColorBuffer::ColorAttachment8 => 0x8CE8,
            ColorBuffer::ColorAttachment9 => 0x8CE9,
            ColorBuffer::ColorAttachment10 => 0x8CEA,
            ColorBuffer::ColorAttachment11 => 0x8CEB,
            ColorBuffer::ColorAttachment12 => 0x8CEC,
            ColorBuffer::ColorAttachment13 => 0x8CED,
            ColorBuffer::ColorAttachment14 => 0x8CEE,
            ColorBuffer::ColorAttachment15 => 0x8CEF,
        }
    }
}

/// Properties accepted by `get_internal_format_parameter`.
#[derive(Debug, Clone, Copy, PartialEq, Eq, Structural)]
pub enum InformationType {
    Samples,
}

impl InformationType {
    /// The numeric code the external specification fixes for this variant.
    pub open spec fn spec_code(self) -> u32 {
        match self {
            InformationType::Samples => 0x80A9,
        }
    }

    pub fn code(self) -> (c: u32)
        ensures
            c == self.spec_code(),
    {
        match self {
            InformationType::Samples => 0x80A9,
        }
    }
}

/// Query kinds accepted by `begin_query` and `end_query`.
#[derive(Debug, Clone, Copy, PartialEq, Eq, Structural)]
pub enum QueryTarget {
    AnySamplesPassed,
    AnySamplesPassedConservative,
    TransformFeedbackPrimitivesWritten,
}

impl QueryTarget {
    /// The numeric code the external specification fixes for this variant.
    pub open spec fn spec_code(self) -> u32 {
        match self {
            QueryTarget::AnySamplesPassed => 0x8C2F,
            QueryTarget::AnySamplesPassedConservative => 0x8D6A,
            QueryTarget::TransformFeedbackPrimitivesWritten => 0x8C88,
        }
    }

    pub fn code(self) -> (c: u32)
        ensures
            c == self.spec_code(),
    {
        match self {
            QueryTarget::AnySamplesPassed => 0x8C2F,
            QueryTarget::AnySamplesPassedConservative => 0x8D6A,
            QueryTarget::TransformFeedbackPrimitivesWritten => 0x8C88,
        }
    }
}

/// Properties accepted by `get_query`.
#[derive(Debug, Clone, Copy, PartialEq, Eq, Structural)]
pub enum Query {
    Current,
}

impl Query {
    /// The numeric code the external specification fixes for this variant.
    pub open spec fn spec_code(self) -> u32 {
        match self {
            Query::Current => 0x8865,
        }
    }

    pub fn code(self) -> (c: u32)
        ensures
            c == self.spec_code(),
    {
        match self {
            Query::Current => 0x8865,
        }
    }
}

/// Query properties accepted by `get_query_parameter`.
#[derive(Debug, Clone, Copy, PartialEq, Eq, Structural)]
pub enum QueryParameter {
    Result,
    ResultAvailable,
}

impl QueryParameter {
    /// The numeric code the external specification fixes for this variant.
    pub open spec fn spec_code(self) -> u32 {
        match self {
            QueryParameter::Result => 0x8866,
            QueryParameter::ResultAvailable => 0x8867,
        }
    }

    pub fn code(self) -> (c: u32)
        ensures
            c == self.spec_code(),
    {
        match self {
            QueryParameter::Result => 0x8866,
            QueryParameter::ResultAvailable => 0x8867,
        }
    }
}

/// Conditions accepted by `fence_sync`.
#[derive(Debug, Clone, Copy, PartialEq, Eq, Structural)]
pub enum GPUState {
    CommandsComplete,
}

impl GPUState {
    /// The numeric code the external specification fixes for this variant.
    pub open spec fn spec_code(self) -> u32 {
        match self {
            GPUState::CommandsComplete => 0x9117,
        }
    }

    pub fn code(self) -> (c: u32)
        ensures
            c == self.spec_code(),
    {
        match self {
            GPUState::CommandsComplete => 0x9117,
        }
    }
}

/// Outcomes reported by `client_wait_sync`.
#[derive(Debug, Clone, Copy, PartialEq, Eq, Structural)]
pub enum WaitStatus {
    AlreadySignaled,
    TimeoutExpired,
    ConditionSatisfied,
    WaitFailed,
}

impl WaitStatus {
    /// The numeric code the external specification fixes for this variant.
    pub open spec fn spec_code(self) -> u32 {
        match self {
            WaitStatus::AlreadySignaled => 0x911A,
            WaitStatus::TimeoutExpired => 0x911B,
            WaitStatus::ConditionSatisfied => 0x911C,
            WaitStatus::WaitFailed => 0x911D,
        }
    }

    pub fn code(self) -> (c: u32)
        ensures
            c == self.spec_code(),
    {
        match self {
            WaitStatus::AlreadySignaled => 0x911A,
            WaitStatus::TimeoutExpired => 0x911B,
            WaitStatus::ConditionSatisfied => 0x911C,
            WaitStatus::WaitFailed => 0x911D,
        }
    }

    /// The variant whose code is `c`, if `c` belongs to this axis.
    pub open spec fn spec_from_code(c: u32) -> Option<WaitStatus> {
        if c == 0x911A { Some(WaitStatus::AlreadySignaled)
        } else if c == 0x911B { Some(WaitStatus::TimeoutExpired)
        } else if c == 0x911C { Some(WaitStatus::ConditionSatisfied)
        } else if c == 0x911D { Some(WaitStatus::WaitFailed)
        } else { None }
    }

    pub fn from_code(c: u32) -> (r: Option<WaitStatus>)
        ensures
            r == WaitStatus::spec_from_code(c),
            r matches Some(v) ==> v.spec_code() == c,
    {
        if c == 0x911A { Some(WaitStatus::AlreadySignaled)
        } else if c == 0x911B { Some(WaitStatus::TimeoutExpired)
        } else if c == 0x911C { Some(WaitStatus::ConditionSatisfied)
        } else if c == 0x911D { Some(WaitStatus::WaitFailed)
        } else {
            None
        }
    }
}

/// Decoding is a left inverse of encoding: every variant is recovered
/// exactly from its own code.
pub proof fn lemma_wait_status_code_roundtrip(v: WaitStatus)
    ensures
        WaitStatus::spec_from_code(v.spec_code()) == Some(v),
{
    match v {
        WaitStatus::AlreadySignaled => assert(WaitStatus::spec_from_code(v.spec_code()) == Some(v)),
        WaitStatus::TimeoutExpired => assert(WaitStatus::spec_from_code(v.spec_code()) == Some(v)),
        WaitStatus::ConditionSatisfied => assert(WaitStatus::spec_from_code(v.spec_code()) == Some(v)),
        WaitStatus::WaitFailed => assert(WaitStatus::spec_from_code(v.spec_code()) == Some(v)),
    }
}

/// Signal states reported by the sync status parameter.
#[derive(Debug, Clone, Copy, PartialEq, Eq, Structural)]
pub enum SyncStatus {
    Signaled,
    Unsignaled,
}

impl SyncStatus {
    /// The numeric code the external specification fixes for this variant.
    pub open spec fn spec_code(self) -> u32 {
        match self {
            SyncStatus::Signaled => 0x9119,
            SyncStatus::Unsignaled => 0x9118,
        }
    }

    pub fn code(self) -> (c: u32)
        ensures
            c == self.spec_code(),
    {
        match self {
            SyncStatus::Signaled => 0x9119,
            SyncStatus::Unsignaled => 0x9118,
        }
    }

    /// The variant whose code is `c`, if `c` belongs to this axis.
    pub open spec fn spec_from_code(c: u32) -> Option<SyncStatus> {
        if c == 0x9119 { Some(SyncStatus::Signaled)
        } else if c == 0x9118 { Some(SyncStatus::Unsignaled)
        } else { None }
    }

    pub fn from_code(c: u32) -> (r: Option<SyncStatus>)
        ensures
            r == SyncStatus::spec_from_code(c),
            r matches Some(v) ==> v.spec_code() == c,
    {
        if c == 0x9119 { Some(SyncStatus::Signaled)
        } else if c == 0x9118 { Some(SyncStatus::Unsignaled)
        } else {
            None
        }
    }
}

/// Decoding is a left inverse of encoding: every variant is recovered
/// exactly from its own code.
pub proof fn lemma_sync_status_code_roundtrip(v: SyncStatus)
    ensures
        SyncStatus::spec_from_code(v.spec_code()) == Some(v),
{
    match v {
        SyncStatus::Signaled => assert(SyncStatus::spec_from_code(v.spec_code()) == Some(v)),
        SyncStatus::Unsignaled => assert(SyncStatus::spec_from_code(v.spec_code()) == Some(v)),
    }
}

/// Sync properties accepted by `get_sync_parameter`.
#[derive(Debug, Clone, Copy, PartialEq, Eq, Structural)]
pub enum SyncParameter {
    Type,
    Status,
    Condition,
    Flags,
}

impl SyncParameter {
    /// The numeric code the external specification fixes for this variant.
    pub open spec fn spec_code(self) -> u32 {
        match self {
            SyncParameter::Type => 0x9112,
            SyncParameter::Status => 0x9114,
            SyncParameter::Condition => 0x9113,
            SyncParameter::Flags => 0x9115,
        }
    }

    pub fn code(self) -> (c: u32)
        ensures
            c == self.spec_code(),
    {
        match self {
            SyncParameter::Type => 0x9112,
            SyncParameter::Status => 0x9114,
            SyncParameter::Condition => 0x9113,
            SyncParameter::Flags => 0x9115,
        }
    }
}

/// Targets accepted by `bind_transform_feedback`.
#[derive(Debug, Clone, Copy, PartialEq, Eq, Structural)]
pub enum TransformFeedback {
    TransformFeedback,
}

impl TransformFeedback {
    /// The numeric code the external specification fixes for this variant.
    pub open spec fn spec_code(self) -> u32 {
        match self {
            TransformFeedback::TransformFeedback => 0x8E22,
        }
    }

    pub fn code(self) -> (c: u32)
        ensures
            c == self.spec_code(),
    {
        match self {
            TransformFeedback::TransformFeedback => 0x8E22,
        }
    }
}

/// Primitive modes accepted by `begin_transform_feedback`.
#[derive(Debug, Clone, Copy, PartialEq, Eq, Structural)]
pub enum TransformFeedbackMode {
    Points,
    Lines,
    Triangles,
}

impl TransformFeedbackMode {
    /// The numeric code the external specification fixes for this variant.
    pub open spec fn spec_code(self) -> u32 {
        match self {
            TransformFeedbackMode::Points => 0x0000,
            TransformFeedbackMode::Lines => 0x0001,
            TransformFeedbackMode::Triangles => 0x0004,
        }
    }

    pub fn code(self) -> (c: u32)
        ensures
            c == self.spec_code(),
    {
        match self {
            TransformFeedbackMode::Points => 0x0000,
            TransformFeedbackMode::Lines => 0x0001,
            TransformFeedbackMode::Triangles => 0x0004,
        }
    }
}

/// Capture layouts accepted by `transform_feedback_varyings`.
#[derive(Debug, Clone, Copy, PartialEq, Eq, Structural)]
pub enum TransformFeedbackBufferMode {
    InterleavedAttribs,
    SeparateAttribs,
}

impl TransformFeedbackBufferMode {
    /// The numeric code the external specification fixes for this variant.
    pub open spec fn spec_code(self) -> u32 {
        match self {
            TransformFeedbackBufferMode::InterleavedAttribs => 0x8C8C,
            TransformFeedbackBufferMode::SeparateAttribs => 0x8C8D,
        }
    }

    pub fn code(self) -> (c: u32)
        ensures
            c == self.spec_code(),
    {
        match self {
            TransformFeedbackBufferMode::InterleavedAttribs => 0x8C8C,
            TransformFeedbackBufferMode::SeparateAttribs => 0x8C8D,
        }
    }
}

/// Indexed targets accepted by `bind_buffer_base`.
#[derive(Debug, Clone, Copy, PartialEq, Eq, Structural)]
pub enum BufferBase {
    TransformFeedbackBuffer,
    UniformBuffer,
}

impl BufferBase {
    /// The numeric code the external specification fixes for this variant.
    pub open spec fn spec_code(self) -> u32 {
        match self {
            BufferBase::TransformFeedbackBuffer => 0x8C8E,
            BufferBase::UniformBuffer => 0x8A11,
        }
    }

    pub fn code(self) -> (c: u32)
        ensures
            c == self.spec_code(),
    {
        match self {
            BufferBase::TransformFeedbackBuffer => 0x8C8E,
            BufferBase::UniformBuffer => 0x8A11,
        }
    }
}

/// Comparison modes for the texture compare-mode parameter.
#[derive(Debug, Clone, Copy, PartialEq, Eq, Structural)]
pub enum CompareMode {
    NoCompare,
    CompareRefToTexture,
}

impl CompareMode {
    /// The numeric code the external specification fixes for this variant.
    pub open spec fn spec_code(self) -> u32 {
        match self {
            CompareMode::NoCompare => 0,
            CompareMode::CompareRefToTexture => 0x884E,
        }
    }

    pub fn code(self) -> (c: u32)
        ensures
            c == self.spec_code(),
    {
        match self {
            CompareMode::NoCompare => 0,
            CompareMode::CompareRefToTexture => 0x884E,
        }
    }
}

} // verus!
