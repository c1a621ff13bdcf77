//! The narrowed convenience queries fix the parameter-name constant and
//! narrow the raw reply to the precise type that constant yields.

use webgl2::call::Call;
use webgl2::call::Reply;
use webgl2::glenum::BufferKind;
use webgl2::glenum::BufferParameter;
use webgl2::glenum::DataHint;
use webgl2::glenum::RenderbufferFormat;
use webgl2::glenum::RenderbufferKind;
use webgl2::glenum::ShaderKind;
use webgl2::glenum::ShaderPrecision;
use webgl2::glenum::VertexAttrib;
use webgl2::rendering_context::WebGL2RenderingContext;

#[test]
fn get_buffer_size_queries_the_size_constant() {
    let mut ctx = WebGL2RenderingContext::new();
    ctx.script_reply(Reply::Int(1024));
    let r = ctx.get_buffer_size(BufferKind::Array);
    assert_eq!(r, Some(1024));
    assert_eq!(
        ctx.calls,
        vec![Call::GetBufferParameter { target: 0x8892, pname: 0x8764 }],
    );
}

#[test]
fn get_buffer_usage_queries_the_usage_constant_and_retypes() {
    let mut ctx = WebGL2RenderingContext::new();
    ctx.script_reply(Reply::Uint(0x88E4));
    let r = ctx.get_buffer_usage(BufferKind::UniformBuffer);
    assert_eq!(r, Some(DataHint::StaticDraw));
    assert_eq!(
        ctx.calls,
        vec![Call::GetBufferParameter { target: 0x8A11, pname: 0x8765 }],
    );
}

#[test]
fn get_buffer_usage_rejects_a_code_outside_the_axis() {
    let mut ctx = WebGL2RenderingContext::new();
    ctx.script_reply(Reply::Uint(0x1234));
    assert_eq!(ctx.get_buffer_usage(BufferKind::Array), None);
}

#[test]
fn get_buffer_size_without_a_reply_returns_nothing() {
    let mut ctx = WebGL2RenderingContext::new();
    assert_eq!(ctx.get_buffer_size(BufferKind::Array), None);
    assert_eq!(ctx.calls.len(), 1);
}

#[test]
fn get_buffer_size_rejects_a_wrongly_shaped_reply() {
    let mut ctx = WebGL2RenderingContext::new();
    ctx.script_reply(Reply::Boolean(true));
    assert_eq!(ctx.get_buffer_size(BufferKind::Array), None);
}

#[test]
fn generic_buffer_query_returns_the_raw_reply() {
    let mut ctx = WebGL2RenderingContext::new();
    ctx.script_reply(Reply::Int(7));
    let r = ctx.get_buffer_parameter(BufferKind::Array, BufferParameter::Size);
    assert_eq!(r, Some(Reply::Int(7)));
}

#[test]
fn get_renderbuffer_format_queries_the_format_constant_and_retypes() {
    let mut ctx = WebGL2RenderingContext::new();
    ctx.script_reply(Reply::Uint(0x8056));
    let r = ctx.get_renderbuffer_format(RenderbufferKind::Renderbuffer);
    assert_eq!(r, Some(RenderbufferFormat::Rgba4));
    assert_eq!(
        ctx.calls,
        vec![Call::GetRenderbufferParameter { target: 0x8D41, pname: 0x8D44 }],
    );
}

#[test]
fn get_vertex_attrib_offset_narrows_to_a_long() {
    let mut ctx = WebGL2RenderingContext::new();
    ctx.script_reply(Reply::Long(4096));
    let r = ctx.get_vertex_attrib_offset(2, VertexAttrib::ArrayPointer);
    assert_eq!(r, Some(4096));
    assert_eq!(
        ctx.calls,
        vec![Call::GetVertexAttribOffset { index: 2, pname: 0x8645 }],
    );
}

#[test]
fn get_shader_precision_format_carries_the_three_figures() {
    let mut ctx = WebGL2RenderingContext::new();
    ctx.script_reply(Reply::Precision { range_min: 127, range_max: 127, precision: 23 });
    let f = ctx
        .get_shader_precision_format(ShaderKind::Fragment, ShaderPrecision::HighFloat)
        .unwrap();
    assert_eq!(f.range_min(), 127);
    assert_eq!(f.range_max(), 127);
    assert_eq!(f.precision(), 23);
    assert_eq!(
        ctx.calls,
        vec![Call::GetShaderPrecisionFormat { shader_type: 0x8B30, precision_type: 0x8DF2 }],
    );
}

#[test]
fn get_internal_format_parameter_returns_the_sample_counts() {
    let mut ctx = WebGL2RenderingContext::new();
    ctx.script_reply(Reply::IntArray(vec![8, 4, 1]));
    let r = ctx.get_internal_format_parameter(
        RenderbufferKind::Renderbuffer,
        RenderbufferFormat::Rgba4,
        webgl2::glenum::InformationType::Samples,
    );
    assert_eq!(r, Some(vec![8, 4, 1]));
}

#[test]
fn drawing_buffer_dimensions_narrow_to_unsigned() {
    let mut ctx = WebGL2RenderingContext::new();
    ctx.script_reply(Reply::Uint(800));
    ctx.script_reply(Reply::Uint(600));
    assert_eq!(ctx.drawing_buffer_width(), Some(800));
    assert_eq!(ctx.drawing_buffer_height(), Some(600));
    assert_eq!(ctx.calls, vec![Call::DrawingBufferWidth, Call::DrawingBufferHeight]);
}

#[test]
fn is_context_lost_narrows_to_a_boolean() {
    let mut ctx = WebGL2RenderingContext::new();
    ctx.script_reply(Reply::Boolean(false));
    assert_eq!(ctx.is_context_lost(), Some(false));
    assert_eq!(ctx.calls, vec![Call::IsContextLost]);
}
