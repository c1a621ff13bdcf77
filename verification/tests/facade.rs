//! The wider facade: texture, framebuffer, transform feedback and sampler
//! operations append exactly the calls they stand for, in program order.

use webgl2::call::Call;
use webgl2::call::Reply;
use webgl2::glenum::Attachment;
use webgl2::glenum::AttributeSize;
use webgl2::glenum::AttributeType;
use webgl2::glenum::BufferBit;
use webgl2::glenum::BufferKind;
use webgl2::glenum::ColorBuffer;
use webgl2::glenum::DataHint;
use webgl2::glenum::FramebufferKind;
use webgl2::glenum::PixelCopyFormat;
use webgl2::glenum::PixelReadFormat;
use webgl2::glenum::PixelType;
use webgl2::glenum::Primitives;
use webgl2::glenum::QueryTarget;
use webgl2::glenum::RenderbufferFormat;
use webgl2::glenum::RenderbufferKind;
use webgl2::glenum::Texture2DKind;
use webgl2::glenum::Texture3DKind;
use webgl2::glenum::TextureBindPoint;
use webgl2::glenum::TextureKind;
use webgl2::glenum::TextureMagFilter;
use webgl2::glenum::TextureParameter;
use webgl2::glenum::TransformFeedback;
use webgl2::glenum::TransformFeedbackMode;
use webgl2::rendering_context::WebGL2RenderingContext;

#[test]
fn texture_setup_is_recorded_in_order() {
    let mut ctx = WebGL2RenderingContext::new();
    ctx.generate_mipmap(TextureKind::Texture2d);
    ctx.tex_parameter_i(TextureKind::Texture2d, TextureParameter::MinFilter, 0x2601);
    ctx.tex_storage_2d(Texture2DKind::Texture2d, 4, RenderbufferFormat::Rgba4, 16, 16);
    assert_eq!(
        ctx.calls,
        vec![
            Call::GenerateMipmap { target: 0x0DE1 },
            Call::TexParameterI { target: 0x0DE1, pname: 0x2801, param: 0x2601 },
            Call::TexStorage2d {
                target: 0x0DE1,
                levels: 4,
                internal_format: 0x8056,
                width: 16,
                height: 16,
            },
        ],
    );
}

#[test]
fn three_dimensional_texture_upload_records_the_bytes() {
    let mut ctx = WebGL2RenderingContext::new();
    let texels: Vec<u8> = vec![1, 2, 3, 4, 5, 6, 7, 8];
    ctx.tex_image_3d(
        Texture3DKind::Texture3d,
        0,
        RenderbufferFormat::Rgba4,
        2,
        2,
        2,
        0,
        RenderbufferFormat::Rgba4,
        RenderbufferFormat::Rgba4,
        &texels,
        0,
    );
    match &ctx.calls[0] {
        Call::TexImage3d { target, depth, src_data, .. } => {
            assert_eq!(*target, 0x806F);
            assert_eq!(*depth, 2);
            assert_eq!(src_data, &texels);
        }
        other => panic!("unexpected call {:?}", other),
    }
}

#[test]
fn framebuffer_operations_carry_their_codes() {
    let mut ctx = WebGL2RenderingContext::new();
    ctx.check_framebuffer_status(FramebufferKind::DrawFramebuffer);
    ctx.read_buffer(ColorBuffer::ColorAttachment1);
    ctx.blit_framebuffer(
        0,
        0,
        8,
        8,
        0,
        0,
        16,
        16,
        BufferBit::Color,
        TextureMagFilter::Linear,
    );
    assert_eq!(
        ctx.calls,
        vec![
            Call::CheckFramebufferStatus { target: 0x8CA9 },
            Call::ReadBuffer { src: 0x8CE1 },
            Call::BlitFramebuffer {
                src_x0: 0,
                src_y0: 0,
                src_x1: 8,
                src_y1: 8,
                dst_x0: 0,
                dst_y0: 0,
                dst_x1: 16,
                dst_y1: 16,
                mask: 0x00004000,
                filter: 0x2601,
            },
        ],
    );
    // The attachment axis still names its own codes.
    assert_eq!(Attachment::DepthStencilAttachment.code(), 0x821A);
}

#[test]
fn read_pixels_records_destination_and_layout() {
    let mut ctx = WebGL2RenderingContext::new();
    let dst: Vec<u8> = vec![0; 16];
    ctx.read_pixels(
        1,
        2,
        2,
        2,
        PixelReadFormat::Rgba,
        PixelType::UnsignedByte,
        &dst,
        0,
    );
    assert_eq!(
        ctx.calls,
        vec![Call::ReadPixels {
            x: 1,
            y: 2,
            width: 2,
            height: 2,
            format: 0x1908,
            pixel_type: 0x1401,
            pixels: vec![0; 16],
            dst_offset: 0,
        }],
    );
}

#[test]
fn buffer_copies_carry_their_offsets() {
    let mut ctx = WebGL2RenderingContext::new();
    ctx.copy_buffer_sub_data(
        BufferKind::CopyReadBuffer,
        BufferKind::CopyWriteBuffer,
        8,
        24,
        100,
    );
    assert_eq!(
        ctx.calls,
        vec![Call::CopyBufferSubData {
            read_target: 0x8F36,
            write_target: 0x8F37,
            read_offset: 8,
            write_offset: 24,
            size: 100,
        }],
    );
}

#[test]
fn vertex_attribute_layout_is_recorded() {
    let mut ctx = WebGL2RenderingContext::new();
    ctx.enable_vertex_attrib_array(1);
    ctx.vertex_attrib_pointer(1, AttributeSize::Three, AttributeType::Float, false, 12, 0);
    assert_eq!(
        ctx.calls,
        vec![
            Call::EnableVertexAttribArray { index: 1 },
            Call::VertexAttribPointer {
                index: 1,
                size: 3,
                attribute_type: 0x1406,
                normalized: false,
                stride: 12,
                offset: 0,
            },
        ],
    );
}

#[test]
fn transform_feedback_session_is_recorded() {
    let mut ctx = WebGL2RenderingContext::new();
    let tf = ctx.create_transform_feedback();
    ctx.bind_transform_feedback(TransformFeedback::TransformFeedback, &tf);
    ctx.begin_transform_feedback(TransformFeedbackMode::Points);
    ctx.pause_transform_feedback();
    ctx.resume_transform_feedback();
    ctx.end_transform_feedback();
    assert_eq!(
        ctx.calls,
        vec![
            Call::CreateTransformFeedback { id: 0 },
            Call::BindTransformFeedback { target: 0x8E22, transform_feedback: 0 },
            Call::BeginTransformFeedback { primitive_mode: 0x0000 },
            Call::PauseTransformFeedback,
            Call::ResumeTransformFeedback,
            Call::EndTransformFeedback,
        ],
    );
}

#[test]
fn sampler_binding_is_recorded() {
    let mut ctx = WebGL2RenderingContext::new();
    let s = ctx.create_sampler();
    ctx.bind_sampler(2, &s);
    ctx.is_sampler(&s);
    ctx.delete_sampler(&s);
    assert_eq!(
        ctx.calls,
        vec![
            Call::CreateSampler { id: 0 },
            Call::BindSampler { unit: 2, sampler: 0 },
            Call::IsSampler { sampler: 0 },
            Call::DeleteSampler { sampler: 0 },
        ],
    );
}

#[test]
fn get_query_hands_back_the_active_query_handle() {
    let mut ctx = WebGL2RenderingContext::new();
    ctx.script_reply(Reply::Handle(7));
    let q = ctx.get_query(QueryTarget::AnySamplesPassed, webgl2::glenum::Query::Current);
    assert_eq!(q.map(|h| h.id()), Some(7));
    assert_eq!(
        ctx.calls,
        vec![Call::GetQuery { target: 0x8C2F, pname: 0x8865 }],
    );
}

#[test]
fn renderbuffer_storage_threads_dimensions() {
    let mut ctx = WebGL2RenderingContext::new();
    ctx.renderbuffer_storage(RenderbufferKind::Renderbuffer, RenderbufferFormat::Rgb565, 64, 32);
    ctx.renderbuffer_storage_multisample(
        RenderbufferKind::Renderbuffer,
        4,
        RenderbufferFormat::Rgb565,
        64,
        32,
    );
    assert_eq!(
        ctx.calls,
        vec![
            Call::RenderbufferStorage {
                target: 0x8D41,
                internal_format: 0x8D62,
                width: 64,
                height: 32,
            },
            Call::RenderbufferStorageMultisample {
                target: 0x8D41,
                samples: 4,
                internal_format: 0x8D62,
                width: 64,
                height: 32,
            },
        ],
    );
}

#[test]
fn a_whole_frame_is_recorded_in_program_order() {
    let mut ctx = WebGL2RenderingContext::new();
    let vertices: Vec<u8> = vec![0, 1, 2, 3];
    let texels: Vec<u8> = vec![9, 9, 9, 9];
    ctx.buffer_data_u8(BufferKind::Array, &vertices, DataHint::StaticDraw);
    ctx.tex_image_2d_u8(
        TextureBindPoint::Texture2d,
        0,
        PixelCopyFormat::Rgba,
        1,
        1,
        0,
        PixelCopyFormat::Rgba,
        PixelType::UnsignedByte,
        &texels,
    );
    ctx.clear(BufferBit::Color);
    ctx.draw_arrays(Primitives::Triangles, 0, 3);
    ctx.finish();
    assert_eq!(ctx.calls.len(), 5);
    assert_eq!(ctx.calls[2], Call::Clear { mask: 0x00004000 });
    assert_eq!(ctx.calls[3], Call::DrawArrays { mode: 0x0004, first: 0, count: 3 });
    assert_eq!(ctx.calls[4], Call::Finish);
}
