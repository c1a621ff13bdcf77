//! The wire surface of the rendering context.
//!
//! A [`Call`] is one external operation together with the raw values it
//! carries: enumeration parameters appear as the numeric codes the taxonomy
//! fixes, handles as their identifiers, and bulk data verbatim, all in the
//! external specification's parameter order.  The context records the calls
//! it issues in program order, so a contract can pin down exactly what
//! reaches the external API.  A [`Reply`] is one raw value the external API
//! hands back to a query.  The `is_*` predicates describe the calls that
//! carry bulk data, whose payload a specification reaches as a sequence.

use vstd::prelude::*;

verus! {

/// One raw value the external API hands back to a query.
#[derive(Debug, Clone, PartialEq)]
pub enum Reply {
    /// A signed 32-bit value.
    Int(i32),
    /// A signed 64-bit value.
    Long(i64),
    /// An unsigned 32-bit value, also used for every enumeration code.
    Uint(u32),
    /// A boolean value.
    Boolean(bool),
    /// An array of signed 32-bit values.
    IntArray(Vec<i32>),
    /// The identifier of a server-side object.
    Handle(u64),
    /// The three figures describing a shader numeric format.
    Precision { range_min: u32, range_max: u32, precision: u32 },
}

/// One external operation with the raw values it carries, in the external
/// specification's parameter order.
#[derive(Debug, Clone, PartialEq)]
pub enum Call {
    Scissor { x: i32, y: i32, width: u32, height: u32 },
    Viewport { x: i32, y: i32, width: u32, height: u32 },
    ActiveTexture { texture: u32 },
    BlendEquation { mode: u32 },
    BlendEquationSeparate { mode_rgb: u32, mode_alpha: u32 },
    BlendFunc { sfactor: u32, dfactor: u32 },
    BlendFuncSeparate { src_rgb: u32, dst_rgb: u32, src_alpha: u32, dst_alpha: u32 },
    ClearStencil { s: i32 },
    ColorMask { red: bool, green: bool, blue: bool, alpha: bool },
    CullFace { mode: u32 },
    DepthFunc { func: u32 },
    DepthMask { flag: bool },
    Disable { cap: u32 },
    Enable { cap: u32 },
    FrontFace { mode: u32 },
    Hint { target: u32, mode: u32 },
    IsEnabled { cap: u32 },
    PixelStorei { pname: u32, param: i32 },
    StencilFunc { func: u32, reference: i32, mask: u32 },
    StencilFuncSeparate { face: u32, func: u32, reference: i32, mask: u32 },
    StencilMask { mask: u32 },
    StencilMaskSeparate { face: u32, mask: u32 },
    StencilOp { fail: u32, zfail: u32, zpass: u32 },
    StencilOpSeparate { face: u32, fail: u32, zfail: u32, zpass: u32 },
    CheckFramebufferStatus { target: u32 },
    RenderbufferStorage { target: u32, internal_format: u32, width: u32, height: u32 },
    CopyTexImage2d { target: u32, level: u32, internalformat: u32, x: i32, y: i32, width: u32, height: u32, border: u32 },
    CopyTexSubImage2d { target: u32, level: u32, xoffset: i32, yoffset: i32, x: i32, y: i32, width: u32, height: u32 },
    GenerateMipmap { target: u32 },
    TexParameterI { target: u32, pname: u32, param: i32 },
    DisableVertexAttribArray { index: u32 },
    EnableVertexAttribArray { index: u32 },
    VertexAttribPointer { index: u32, size: u32, attribute_type: u32, normalized: bool, stride: u8, offset: i32 },
    Clear { mask: u32 },
    DrawArrays { mode: u32, first: u32, count: u32 },
    DrawElements { mode: u32, count: u32, data_type: u32, offset: i64 },
    Finish,
    Flush,
    CopyBufferSubData { read_target: u32, write_target: u32, read_offset: i64, write_offset: i64, size: u32 },
    BlitFramebuffer { src_x0: i32, src_y0: i32, src_x1: i32, src_y1: i32, dst_x0: i32, dst_y0: i32, dst_x1: i32, dst_y1: i32, mask: u32, filter: u32 },
    ReadBuffer { src: u32 },
    RenderbufferStorageMultisample { target: u32, samples: u32, internal_format: u32, width: u32, height: u32 },
    TexStorage2d { target: u32, levels: u32, internal_format: u32, width: u32, height: u32 },
    TexStorage3d { target: u32, levels: u32, internalformat: u32, width: u32, height: u32, depth: u32 },
    CopyTexSubImage3d { target: u32, level: u32, xoffset: u32, yoffset: u32, zoffset: u32, x: u32, y: u32, width: u32, height: u32 },
    VertexAttribDivisor { index: u32, divisor: u32 },
    DrawArraysInstanced { mode: u32, first: i32, count: u32, instance_count: u32 },
    DrawElementsInstanced { mode: u32, count: u32, data_type: u32, offset: i64, instance_count: u32 },
    DrawRangeElements { mode: u32, start: u32, end: u32, count: u32, data_type: u32, offset: i64 },
    VertexAttribI4i { index: u32, v0: i32, v1: i32, v2: i32, v3: i32 },
    VertexAttribI4ui { index: u32, v0: u32, v1: u32, v2: u32, v3: u32 },
    VertexAttribIPointer { index: u32, size: u32, data_type: u32, stride: u32, offset: i64 },
    Uniform1i { location: u64, v0: i32 },
    Uniform2i { location: u64, v0: i32, v1: i32 },
    Uniform3i { location: u64, v0: i32, v1: i32, v2: i32 },
    Uniform4i { location: u64, v0: i32, v1: i32, v2: i32, v3: i32 },
    Uniform1ui { location: u64, v0: u32 },
    Uniform2ui { location: u64, v0: u32, v1: u32 },
    Uniform3ui { location: u64, v0: u32, v1: u32, v2: u32 },
    Uniform4ui { location: u64, v0: u32, v1: u32, v2: u32, v3: u32 },
    DeleteQuery { query: u64 },
    IsQuery { query: u64 },
    BeginQuery { target: u32, query: u64 },
    EndQuery { target: u32 },
    DeleteSampler { sampler: u64 },
    BindSampler { unit: u32, sampler: u64 },
    IsSampler { sampler: u64 },
    DeleteSync { sync: u64 },
    WaitSync { sync: u64, flags: u32, timeout: i64 },
    DeleteTransformFeedback { transform_feedback: u64 },
    BindTransformFeedback { target: u32, transform_feedback: u64 },
    BeginTransformFeedback { primitive_mode: u32 },
    EndTransformFeedback,
    PauseTransformFeedback,
    ResumeTransformFeedback,
    BufferDataU8 { target: u32, src_data: Vec<u8>, usage: u32 },
    BufferDataI8 { target: u32, src_data: Vec<i8>, usage: u32 },
    BufferDataU16 { target: u32, src_data: Vec<u16>, usage: u32 },
    BufferDataI16 { target: u32, src_data: Vec<i16>, usage: u32 },
    BufferDataU32 { target: u32, src_data: Vec<u32>, usage: u32 },
    BufferDataI32 { target: u32, src_data: Vec<i32>, usage: u32 },
    BufferSubData { target: u32, dst_byte_offset: u32, src_data: Vec<u8>, src_offset: u32, length: u32 },
    GetBufferSubData { target: u32, src_byte_offset: i64, dst_data: Vec<u8>, dst_offset: i64, length: u32 },
    ReadPixels { x: i32, y: i32, width: u32, height: u32, format: u32, pixel_type: u32, pixels: Vec<u8>, dst_offset: i32 },
    TexImage2dU8 { target: u32, level: u32, internalformat: u32, width: u32, height: u32, border: u32, format: u32, pixel_type: u32, src_data: Vec<u8> },
    TexImage2dI8 { target: u32, level: u32, internalformat: u32, width: u32, height: u32, border: u32, format: u32, pixel_type: u32, src_data: Vec<i8> },
    TexImage2dU16 { target: u32, level: u32, internalformat: u32, width: u32, height: u32, border: u32, format: u32, pixel_type: u32, src_data: Vec<u16> },
    TexImage2dI16 { target: u32, level: u32, internalformat: u32, width: u32, height: u32, border: u32, format: u32, pixel_type: u32, src_data: Vec<i16> },
    TexImage2dU32 { target: u32, level: u32, internalformat: u32, width: u32, height: u32, border: u32, format: u32, pixel_type: u32, src_data: Vec<u32> },
    TexImage2dI32 { target: u32, level: u32, internalformat: u32, width: u32, height: u32, border: u32, format: u32, pixel_type: u32, src_data: Vec<i32> },
    TexImage3d { target: u32, level: u32, internalformat: u32, width: u32, height: u32, depth: u32, border: u32, format: u32, data_type: u32, src_data: Vec<u8>, src_offset: u32 },
    TexSubImage3d { target: u32, level: u32, xoffset: u32, yoffset: u32, zoffset: u32, width: u32, height: u32, depth: u32, format: u32, data_type: u32, src_data: Vec<u8>, src_offset: u32 },
    Uniform1iv { location: u64, value: Vec<i32> },
    Uniform2iv { location: u64, value: Vec<i32> },
    Uniform3iv { location: u64, value: Vec<i32> },
    Uniform4iv { location: u64, value: Vec<i32> },
    Uniform1uiv { location: u64, value: Vec<u32> },
    Uniform2uiv { location: u64, value: Vec<u32> },
    Uniform3uiv { location: u64, value: Vec<u32> },
    Uniform4uiv { location: u64, value: Vec<u32> },
    VertexAttribI4iv { index: u32, value: Vec<i32> },
    VertexAttribI4uiv { index: u32, value: Vec<u32> },
    ClearBufferIv { buffer: u32, drawbuffer: i32, values: Vec<u8>, src_offset: u32 },
    ClearBufferUiv { buffer: u32, drawbuffer: i32, values: Vec<u8>, src_offset: u32 },
    IsContextLost,
    DrawingBufferWidth,
    DrawingBufferHeight,
    GetError,
    GetBufferParameter { target: u32, pname: u32 },
    GetRenderbufferParameter { target: u32, pname: u32 },
    GetQueryParameter { query: u64, pname: u32 },
    GetVertexAttribOffset { index: u32, pname: u32 },
    GetInternalFormatParameter { target: u32, internal_format: u32, pname: u32 },
    GetShaderPrecisionFormat { shader_type: u32, precision_type: u32 },
    GetQuery { target: u32, pname: u32 },
    ClientWaitSync { sync: u64, flags: u32, timeout: i64 },
    IsSync { sync: u64 },
    IsTransformFeedback { transform_feedback: u64 },
    CreateQuery { id: u64 },
    CreateSampler { id: u64 },
    FenceSync { conditions: u32, flags: u32, id: u64 },
    CreateTransformFeedback { id: u64 },
}

/// `c` is the `buffer_data_u8` call with exactly these raw values.
pub open spec fn is_buffer_data_u8(c: Call, target: u32, src_data: Seq<u8>, usage: u32) -> bool {
    c matches Call::BufferDataU8 { target: f_target, src_data: d_src_data, usage: f_usage }
        && f_target == target
        && d_src_data@ == src_data
        && f_usage == usage
}

/// `c` is the `buffer_data_i8` call with exactly these raw values.
pub open spec fn is_buffer_data_i8(c: Call, target: u32, src_data: Seq<i8>, usage: u32) -> bool {
    c matches Call::BufferDataI8 { target: f_target, src_data: d_src_data, usage: f_usage }
        && f_target == target
        && d_src_data@ == src_data
        && f_usage == usage
}

/// `c` is the `buffer_data_u16` call with exactly these raw values.
pub open spec fn is_buffer_data_u16(c: Call, target: u32, src_data: Seq<u16>, usage: u32) -> bool {
    c matches Call::BufferDataU16 { target: f_target, src_data: d_src_data, usage: f_usage }
        && f_target == target
        && d_src_data@ == src_data
        && f_usage == usage
}

/// `c` is the `buffer_data_i16` call with exactly these raw values.
pub open spec fn is_buffer_data_i16(c: Call, target: u32, src_data: Seq<i16>, usage: u32) -> bool {
    c matches Call::BufferDataI16 { target: f_target, src_data: d_src_data, usage: f_usage }
        && f_target == target
        && d_src_data@ == src_data
        && f_usage == usage
}

/// `c` is the `buffer_data_u32` call with exactly these raw values.
pub open spec fn is_buffer_data_u32(c: Call, target: u32, src_data: Seq<u32>, usage: u32) -> bool {
    c matches Call::BufferDataU32 { target: f_target, src_data: d_src_data, usage: f_usage }
        && f_target == target
        && d_src_data@ == src_data
        && f_usage == usage
}

/// `c` is the `buffer_data_i32` call with exactly these raw values.
pub open spec fn is_buffer_data_i32(c: Call, target: u32, src_data: Seq<i32>, usage: u32) -> bool {
    c matches Call::BufferDataI32 { target: f_target, src_data: d_src_data, usage: f_usage }
        && f_target == target
        && d_src_data@ == src_data
        && f_usage == usage
}

/// `c` is the `buffer_sub_data` call with exactly these raw values.
pub open spec fn is_buffer_sub_data(c: Call, target: u32, dst_byte_offset: u32, src_data: Seq<u8>, src_offset: u32, length: u32) -> bool {
    c matches Call::BufferSubData { target: f_target, dst_byte_offset: f_dst_byte_offset, src_data: d_src_data, src_offset: f_src_offset, length: f_length }
        && f_target == target
        && f_dst_byte_offset == dst_byte_offset
        && d_src_data@ == src_data
        && f_src_offset == src_offset
        && f_length == length
}

/// `c` is the `get_buffer_sub_data` call with exactly these raw values.
pub open spec fn is_get_buffer_sub_data(c: Call, target: u32, src_byte_offset: i64, dst_data: Seq<u8>, dst_offset: i64, length: u32) -> bool {
    c matches Call::GetBufferSubData { target: f_target, src_byte_offset: f_src_byte_offset, dst_data: d_dst_data, dst_offset: f_dst_offset, length: f_length }
        && f_target == target
        && f_src_byte_offset == src_byte_offset
        && d_dst_data@ == dst_data
        && f_dst_offset == dst_offset
        && f_length == length
}

/// `c` is the `read_pixels` call with exactly these raw values.
pub open spec fn is_read_pixels(c: Call, x: i32, y: i32, width: u32, height: u32, format: u32, pixel_type: u32, pixels: Seq<u8>, dst_offset: i32) -> bool {
    c matches Call::ReadPixels { x: f_x, y: f_y, width: f_width, height: f_height, format: f_format, pixel_type: f_pixel_type, pixels: d_pixels, dst_offset: f_dst_offset }
        && f_x == x
        && f_y == y
        && f_width == width
        && f_height == height
        && f_format == format
        && f_pixel_type == pixel_type
        && d_pixels@ == pixels
        && f_dst_offset == dst_offset
}

/// `c` is the `tex_image_2d_u8` call with exactly these raw values.
pub open spec fn is_tex_image_2d_u8(c: Call, target: u32, level: u32, internalformat: u32, width: u32, height: u32, border: u32, format: u32, pixel_type: u32, src_data: Seq<u8>) -> bool {
    c matches Call::TexImage2dU8 { target: f_target, level: f_level, internalformat: f_internalformat, width: f_width, height: f_height, border: f_border, format: f_format, pixel_type: f_pixel_type, src_data: d_src_data }
        && f_target == target
        && f_level == level
        && f_internalformat == internalformat
        && f_width == width
        && f_height == height
        && f_border == border
        && f_format == format
        && f_pixel_type == pixel_type
        && d_src_data@ == src_data
}

/// `c` is the `tex_image_2d_i8` call with exactly these raw values.
pub open spec fn is_tex_image_2d_i8(c: Call, target: u32, level: u32, internalformat: u32, width: u32, height: u32, border: u32, format: u32, pixel_type: u32, src_data: Seq<i8>) -> bool {
    c matches Call::TexImage2dI8 { target: f_target, level: f_level, internalformat: f_internalformat, width: f_width, height: f_height, border: f_border, format: f_format, pixel_type: f_pixel_type, src_data: d_src_data }
        && f_target == target
        && f_level == level
        && f_internalformat == internalformat
        && f_width == width
        && f_height == height
        && f_border == border
        && f_format == format
        && f_pixel_type == pixel_type
        && d_src_data@ == src_data
}

/// `c` is the `tex_image_2d_u16` call with exactly these raw values.
pub open spec fn is_tex_image_2d_u16(c: Call, target: u32, level: u32, internalformat: u32, width: u32, height: u32, border: u32, format: u32, pixel_type: u32, src_data: Seq<u16>) -> bool {
    c matches Call::TexImage2dU16 { target: f_target, level: f_level, internalformat: f_internalformat, width: f_width, height: f_height, border: f_border, format: f_format, pixel_type: f_pixel_type, src_data: d_src_data }
        && f_target == target
        && f_level == level
        && f_internalformat == internalformat
        && f_width == width
        && f_height == height
        && f_border == border
        && f_format == format
        && f_pixel_type == pixel_type
        && d_src_data@ == src_data
}

/// `c` is the `tex_image_2d_i16` call with exactly these raw values.
pub open spec fn is_tex_image_2d_i16(c: Call, target: u32, level: u32, internalformat: u32, width: u32, height: u32, border: u32, format: u32, pixel_type: u32, src_data: Seq<i16>) -> bool {
    c matches Call::TexImage2dI16 { target: f_target, level: f_level, internalformat: f_internalformat, width: f_width, height: f_height, border: f_border, format: f_format, pixel_type: f_pixel_type, src_data: d_src_data }
        && f_target == target
        && f_level == level
        && f_internalformat == internalformat
        && f_width == width
        && f_height == height
        && f_border == border
        && f_format == format
        && f_pixel_type == pixel_type
        && d_src_data@ == src_data
}

/// `c` is the `tex_image_2d_u32` call with exactly these raw values.
pub open spec fn is_tex_image_2d_u32(c: Call, target: u32, level: u32, internalformat: u32, width: u32, height: u32, border: u32, format: u32, pixel_type: u32, src_data: Seq<u32>) -> bool {
    c matches Call::TexImage2dU32 { target: f_target, level: f_level, internalformat: f_internalformat, width: f_width, height: f_height, border: f_border, format: f_format, pixel_type: f_pixel_type, src_data: d_src_data }
        && f_target == target
        && f_level == level
        && f_internalformat == internalformat
        && f_width == width
        && f_height == height
        && f_border == border
        && f_format == format
        && f_pixel_type == pixel_type
        && d_src_data@ == src_data
}

/// `c` is the `tex_image_2d_i32` call with exactly these raw values.
pub open spec fn is_tex_image_2d_i32(c: Call, target: u32, level: u32, internalformat: u32, width: u32, height: u32, border: u32, format: u32, pixel_type: u32, src_data: Seq<i32>) -> bool {
    c matches Call::TexImage2dI32 { target: f_target, level: f_level, internalformat: f_internalformat, width: f_width, height: f_height, border: f_border, format: f_format, pixel_type: f_pixel_type, src_data: d_src_data }
        && f_target == target
        && f_level == level
        && f_internalformat == internalformat
        && f_width == width
        && f_height == height
        && f_border == border
        && f_format == format
        && f_pixel_type == pixel_type
        && d_src_data@ == src_data
}

/// `c` is the `tex_image_3d` call with exactly these raw values.
pub open spec fn is_tex_image_3d(c: Call, target: u32, level: u32, internalformat: u32, width: u32, height: u32, depth: u32, border: u32, format: u32, data_type: u32, src_data: Seq<u8>, src_offset: u32) -> bool {
    c matches Call::TexImage3d { target: f_target, level: f_level, internalformat: f_internalformat, width: f_width, height: f_height, depth: f_depth, border: f_border, format: f_format, data_type: f_data_type, src_data: d_src_data, src_offset: f_src_offset }
        && f_target == target
        && f_level == level
        && f_internalformat == internalformat
        && f_width == width
        && f_height == height
        && f_depth == depth
        && f_border == border
        && f_format == format
        && f_data_type == data_type
        && d_src_data@ == src_data
        && f_src_offset == src_offset
}

/// `c` is the `tex_sub_image_3d` call with exactly these raw values.
pub open spec fn is_tex_sub_image_3d(c: Call, target: u32, level: u32, xoffset: u32, yoffset: u32, zoffset: u32, width: u32, height: u32, depth: u32, format: u32, data_type: u32, src_data: Seq<u8>, src_offset: u32) -> bool {
    c matches Call::TexSubImage3d { target: f_target, level: f_level, xoffset: f_xoffset, yoffset: f_yoffset, zoffset: f_zoffset, width: f_width, height: f_height, depth: f_depth, format: f_format, data_type: f_data_type, src_data: d_src_data, src_offset: f_src_offset }
        && f_target == target
        && f_level == level
        && f_xoffset == xoffset
        && f_yoffset == yoffset
        && f_zoffset == zoffset
        && f_width == width
        && f_height == height
        && f_depth == depth
        && f_format == format
        && f_data_type == data_type
        && d_src_data@ == src_data
        && f_src_offset == src_offset
}

/// `c` is the `uniform_1iv` call with exactly these raw values.
pub open spec fn is_uniform_1iv(c: Call, location: u64, value: Seq<i32>) -> bool {
    c matches Call::Uniform1iv { location: f_location, value: d_value }
        && f_location == location
        && d_value@ == value
}

/// `c` is the `uniform_2iv` call with exactly these raw values.
pub open spec fn is_uniform_2iv(c: Call, location: u64, value: Seq<i32>) -> bool {
    c matches Call::Uniform2iv { location: f_location, value: d_value }
        && f_location == location
        && d_value@ == value
}

/// `c` is the `uniform_3iv` call with exactly these raw values.
pub open spec fn is_uniform_3iv(c: Call, location: u64, value: Seq<i32>) -> bool {
    c matches Call::Uniform3iv { location: f_location, value: d_value }
        && f_location == location
        && d_value@ == value
}

/// `c` is the `uniform_4iv` call with exactly these raw values.
pub open spec fn is_uniform_4iv(c: Call, location: u64, value: Seq<i32>) -> bool {
    c matches Call::Uniform4iv { location: f_location, value: d_value }
        && f_location == location
        && d_value@ == value
}

/// `c` is the `uniform_1uiv` call with exactly these raw values.
pub open spec fn is_uniform_1uiv(c: Call, location: u64, value: Seq<u32>) -> bool {
    c matches Call::Uniform1uiv { location: f_location, value: d_value }
        && f_location == location
        && d_value@ == value
}

/// `c` is the `uniform_2uiv` call with exactly these raw values.
pub open spec fn is_uniform_2uiv(c: Call, location: u64, value: Seq<u32>) -> bool {
    c matches Call::Uniform2uiv { location: f_location, value: d_value }
        && f_location == location
        && d_value@ == value
}

/// `c` is the `uniform_3uiv` call with exactly these raw values.
pub open spec fn is_uniform_3uiv(c: Call, location: u64, value: Seq<u32>) -> bool {
    c matches Call::Uniform3uiv { location: f_location, value: d_value }
        && f_location == location
        && d_value@ == value
}

/// `c` is the `uniform_4uiv` call with exactly these raw values.
pub open spec fn is_uniform_4uiv(c: Call, location: u64, value: Seq<u32>) -> bool {
    c matches Call::Uniform4uiv { location: f_location, value: d_value }
        && f_location == location
        && d_value@ == value
}

/// `c` is the `vertex_attrib_i_4iv` call with exactly these raw values.
pub open spec fn is_vertex_attrib_i_4iv(c: Call, index: u32, value: Seq<i32>) -> bool {
    c matches Call::VertexAttribI4iv { index: f_index, value: d_value }
        && f_index == index
        && d_value@ == value
}

/// `c` is the `vertex_attrib_i_4uiv` call with exactly these raw values.
pub open spec fn is_vertex_attrib_i_4uiv(c: Call, index: u32, value: Seq<u32>) -> bool {
    c matches Call::VertexAttribI4uiv { index: f_index, value: d_value }
        && f_index == index
        && d_value@ == value
}

/// `c` is the `clear_buffer_iv` call with exactly these raw values.
pub open spec fn is_clear_buffer_iv(c: Call, buffer: u32, drawbuffer: i32, values: Seq<u8>, src_offset: u32) -> bool {
    c matches Call::ClearBufferIv { buffer: f_buffer, drawbuffer: f_drawbuffer, values: d_values, src_offset: f_src_offset }
        && f_buffer == buffer
        && f_drawbuffer == drawbuffer
        && d_values@ == values
        && f_src_offset == src_offset
}

/// `c` is the `clear_buffer_uiv` call with exactly these raw values.
pub open spec fn is_clear_buffer_uiv(c: Call, buffer: u32, drawbuffer: i32, values: Seq<u8>, src_offset: u32) -> bool {
    c matches Call::ClearBufferUiv { buffer: f_buffer, drawbuffer: f_drawbuffer, values: d_values, src_offset: f_src_offset }
        && f_buffer == buffer
        && f_drawbuffer == drawbuffer
        && d_values@ == values
        && f_src_offset == src_offset
}

} // verus!
