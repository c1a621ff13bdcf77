//! Commands append exactly one call carrying the numeric codes of their
//! typed arguments, in program order.

use webgl2::call::Call;
use webgl2::glenum::BlendEquation;
use webgl2::glenum::BlendMode;
use webgl2::glenum::BufferBit;
use webgl2::glenum::BufferKind;
use webgl2::glenum::Culling;
use webgl2::glenum::DataHint;
use webgl2::glenum::DataType;
use webgl2::glenum::DepthTest;
use webgl2::glenum::Flag;
use webgl2::glenum::Primitives;
use webgl2::glenum::StencilAction;
use webgl2::glenum::StencilTest;
use webgl2::glenum::TextureUnit;
use webgl2::handles::WebGLUniformLocation;
use webgl2::rendering_context::WebGL2RenderingContext;

#[test]
fn state_commands_carry_their_codes() {
    let mut ctx = WebGL2RenderingContext::new();
    ctx.enable(Flag::DepthTest);
    ctx.depth_func(DepthTest::Lequal);
    ctx.blend_func(BlendMode::SrcAlpha, BlendMode::OneMinusSrcAlpha);
    ctx.blend_equation(BlendEquation::FuncAdd);
    ctx.cull_face(Culling::Back);
    ctx.active_texture(TextureUnit::Texture3);
    ctx.clear(BufferBit::Color);
    assert_eq!(
        ctx.calls,
        vec![
            Call::Enable { cap: 0x0B71 },
            Call::DepthFunc { func: 0x0203 },
            Call::BlendFunc { sfactor: 0x0302, dfactor: 0x0303 },
            Call::BlendEquation { mode: 0x8006 },
            Call::CullFace { mode: 0x0405 },
            Call::ActiveTexture { texture: 0x84C3 },
            Call::Clear { mask: 0x00004000 },
        ],
    );
}

#[test]
fn stencil_commands_carry_their_codes() {
    let mut ctx = WebGL2RenderingContext::new();
    ctx.stencil_func(StencilTest::Always, 1, 0xFF);
    ctx.stencil_op(StencilAction::Keep, StencilAction::Keep, StencilAction::Replace);
    assert_eq!(
        ctx.calls,
        vec![
            Call::StencilFunc { func: 0x0207, reference: 1, mask: 0xFF },
            Call::StencilOp { fail: 0x1E00, zfail: 0x1E00, zpass: 0x1E01 },
        ],
    );
}

#[test]
fn draw_commands_carry_their_arguments_unchanged() {
    let mut ctx = WebGL2RenderingContext::new();
    ctx.draw_arrays(Primitives::TriangleStrip, 4, 12);
    ctx.draw_elements(Primitives::Lines, 6, DataType::U16, 24);
    assert_eq!(
        ctx.calls,
        vec![
            Call::DrawArrays { mode: 0x0005, first: 4, count: 12 },
            Call::DrawElements { mode: 0x0001, count: 6, data_type: 0x1403, offset: 24 },
        ],
    );
}

#[test]
fn buffer_sub_data_records_the_bytes_verbatim() {
    let mut ctx = WebGL2RenderingContext::new();
    let bytes: Vec<u8> = vec![9, 8, 7];
    ctx.buffer_sub_data(BufferKind::Array, 16, &bytes, 0, 3);
    assert_eq!(
        ctx.calls,
        vec![Call::BufferSubData {
            target: 0x8892,
            dst_byte_offset: 16,
            src_data: vec![9, 8, 7],
            src_offset: 0,
            length: 3,
        }],
    );
}

#[test]
fn uniform_commands_carry_the_location_identifier() {
    let mut ctx = WebGL2RenderingContext::new();
    let loc = WebGLUniformLocation::from_raw(5);
    ctx.uniform_1i(&loc, -3);
    ctx.uniform_3ui(&loc, 1, 2, 3);
    ctx.uniform_2iv(&loc, &vec![4, 5]);
    assert_eq!(
        ctx.calls,
        vec![
            Call::Uniform1i { location: 5, v0: -3 },
            Call::Uniform3ui { location: 5, v0: 1, v1: 2, v2: 3 },
            Call::Uniform2iv { location: 5, value: vec![4, 5] },
        ],
    );
}

#[test]
fn commands_leave_the_reply_store_alone() {
    let mut ctx = WebGL2RenderingContext::new();
    ctx.script_reply(webgl2::call::Reply::Int(1));
    ctx.finish();
    ctx.flush();
    assert_eq!(ctx.replies.len(), 1);
    let usage = ctx.get_buffer_usage(BufferKind::Array);
    assert_eq!(usage, None);
    assert_eq!(ctx.replies.len(), 0);
}

#[test]
fn buffer_data_records_usage_hint() {
    let mut ctx = WebGL2RenderingContext::new();
    let v: Vec<i32> = vec![-1, 0, 1];
    ctx.buffer_data_i32(BufferKind::TransformFeedbackBuffer, &v, DataHint::StreamCopy);
    assert_eq!(
        ctx.calls,
        vec![Call::BufferDataI32 {
            target: 0x8C8E,
            src_data: vec![-1, 0, 1],
            usage: 0x88E2,
        }],
    );
}
