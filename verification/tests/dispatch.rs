//! The generic upload capabilities issue the identical external call as the
//! type-specific raw entry points, element sequence verbatim and, for
//! images, border fixed to zero.

use webgl2::data_view::Buffer;
use webgl2::data_view::Image;
use webgl2::glenum::BufferKind;
use webgl2::glenum::DataHint;
use webgl2::glenum::PixelCopyFormat;
use webgl2::glenum::PixelType;
use webgl2::glenum::TextureBindPoint;
use webgl2::rendering_context::WebGL2RenderingContext;

#[test]
fn buffer_upload_matches_raw_u8() {
    let v: Vec<u8> = vec![1, 2, 3, 4];
    let mut generic = WebGL2RenderingContext::new();
    v.buffer_data(&mut generic, BufferKind::Array, DataHint::StaticDraw);
    let mut raw = WebGL2RenderingContext::new();
    raw.buffer_data_u8(BufferKind::Array, &v, DataHint::StaticDraw);
    assert_eq!(generic.calls, raw.calls);
    assert_eq!(generic.calls.len(), 1);
}

#[test]
fn image_upload_matches_raw_u8() {
    let v: Vec<u8> = vec![7, 8, 9, 10];
    let mut generic = WebGL2RenderingContext::new();
    let r = v.tex_image_2d(
        &mut generic,
        TextureBindPoint::Texture2d,
        0,
        PixelCopyFormat::Rgba,
        2,
        2,
        PixelCopyFormat::Rgba,
        PixelType::UnsignedByte,
    );
    assert!(r.is_ok());
    let mut raw = WebGL2RenderingContext::new();
    raw.tex_image_2d_u8(
        TextureBindPoint::Texture2d,
        0,
        PixelCopyFormat::Rgba,
        2,
        2,
        0,
        PixelCopyFormat::Rgba,
        PixelType::UnsignedByte,
        &v,
    );
    assert_eq!(generic.calls, raw.calls);
    assert_eq!(generic.calls.len(), 1);
}

#[test]
fn buffer_upload_matches_raw_i8() {
    let v: Vec<i8> = vec![1, 2, 3, 4];
    let mut generic = WebGL2RenderingContext::new();
    v.buffer_data(&mut generic, BufferKind::Array, DataHint::StaticDraw);
    let mut raw = WebGL2RenderingContext::new();
    raw.buffer_data_i8(BufferKind::Array, &v, DataHint::StaticDraw);
    assert_eq!(generic.calls, raw.calls);
    assert_eq!(generic.calls.len(), 1);
}

#[test]
fn image_upload_matches_raw_i8() {
    let v: Vec<i8> = vec![7, 8, 9, 10];
    let mut generic = WebGL2RenderingContext::new();
    let r = v.tex_image_2d(
        &mut generic,
        TextureBindPoint::Texture2d,
        0,
        PixelCopyFormat::Rgba,
        2,
        2,
        PixelCopyFormat::Rgba,
        PixelType::UnsignedByte,
    );
    assert!(r.is_ok());
    let mut raw = WebGL2RenderingContext::new();
    raw.tex_image_2d_i8(
        TextureBindPoint::Texture2d,
        0,
        PixelCopyFormat::Rgba,
        2,
        2,
        0,
        PixelCopyFormat::Rgba,
        PixelType::UnsignedByte,
        &v,
    );
    assert_eq!(generic.calls, raw.calls);
    assert_eq!(generic.calls.len(), 1);
}

#[test]
fn buffer_upload_matches_raw_u16() {
    let v: Vec<u16> = vec![1, 2, 3, 4];
    let mut generic = WebGL2RenderingContext::new();
    v.buffer_data(&mut generic, BufferKind::Array, DataHint::StaticDraw);
    let mut raw = WebGL2RenderingContext::new();
    raw.buffer_data_u16(BufferKind::Array, &v, DataHint::StaticDraw);
    assert_eq!(generic.calls, raw.calls);
    assert_eq!(generic.calls.len(), 1);
}

#[test]
fn image_upload_matches_raw_u16() {
    let v: Vec<u16> = vec![7, 8, 9, 10];
    let mut generic = WebGL2RenderingContext::new();
    let r = v.tex_image_2d(
        &mut generic,
        TextureBindPoint::Texture2d,
        0,
        PixelCopyFormat::Rgba,
        2,
        2,
        PixelCopyFormat::Rgba,
        PixelType::UnsignedByte,
    );
    assert!(r.is_ok());
    let mut raw = WebGL2RenderingContext::new();
    raw.tex_image_2d_u16(
        TextureBindPoint::Texture2d,
        0,
        PixelCopyFormat::Rgba,
        2,
        2,
        0,
        PixelCopyFormat::Rgba,
        PixelType::UnsignedByte,
        &v,
    );
    assert_eq!(generic.calls, raw.calls);
    assert_eq!(generic.calls.len(), 1);
}

#[test]
fn buffer_upload_matches_raw_i16() {
    let v: Vec<i16> = vec![1, 2, 3, 4];
    let mut generic = WebGL2RenderingContext::new();
    v.buffer_data(&mut generic, BufferKind::Array, DataHint::StaticDraw);
    let mut raw = WebGL2RenderingContext::new();
    raw.buffer_data_i16(BufferKind::Array, &v, DataHint::StaticDraw);
    assert_eq!(generic.calls, raw.calls);
    assert_eq!(generic.calls.len(), 1);
}

#[test]
fn image_upload_matches_raw_i16() {
    let v: Vec<i16> = vec![7, 8, 9, 10];
    let mut generic = WebGL2RenderingContext::new();
    let r = v.tex_image_2d(
        &mut generic,
        TextureBindPoint::Texture2d,
        0,
        PixelCopyFormat::Rgba,
        2,
        2,
        PixelCopyFormat::Rgba,
        PixelType::UnsignedByte,
    );
    assert!(r.is_ok());
    let mut raw = WebGL2RenderingContext::new();
    raw.tex_image_2d_i16(
        TextureBindPoint::Texture2d,
        0,
        PixelCopyFormat::Rgba,
        2,
        2,
        0,
        PixelCopyFormat::Rgba,
        PixelType::UnsignedByte,
        &v,
    );
    assert_eq!(generic.calls, raw.calls);
    assert_eq!(generic.calls.len(), 1);
}

#[test]
fn buffer_upload_matches_raw_u32() {
    let v: Vec<u32> = vec![1, 2, 3, 4];
    let mut generic = WebGL2RenderingContext::new();
    v.buffer_data(&mut generic, BufferKind::Array, DataHint::StaticDraw);
    let mut raw = WebGL2RenderingContext::new();
    raw.buffer_data_u32(BufferKind::Array, &v, DataHint::StaticDraw);
    assert_eq!(generic.calls, raw.calls);
    assert_eq!(generic.calls.len(), 1);
}

#[test]
fn image_upload_matches_raw_u32() {
    let v: Vec<u32> = vec![7, 8, 9, 10];
    let mut generic = WebGL2RenderingContext::new();
    let r = v.tex_image_2d(
        &mut generic,
        TextureBindPoint::Texture2d,
        0,
        PixelCopyFormat::Rgba,
        2,
        2,
        PixelCopyFormat::Rgba,
        PixelType::UnsignedByte,
    );
    assert!(r.is_ok());
    let mut raw = WebGL2RenderingContext::new();
    raw.tex_image_2d_u32(
        TextureBindPoint::Texture2d,
        0,
        PixelCopyFormat::Rgba,
        2,
        2,
        0,
        PixelCopyFormat::Rgba,
        PixelType::UnsignedByte,
        &v,
    );
    assert_eq!(generic.calls, raw.calls);
    assert_eq!(generic.calls.len(), 1);
}

#[test]
fn buffer_upload_matches_raw_i32() {
    let v: Vec<i32> = vec![1, 2, 3, 4];
    let mut generic = WebGL2RenderingContext::new();
    v.buffer_data(&mut generic, BufferKind::Array, DataHint::StaticDraw);
    let mut raw = WebGL2RenderingContext::new();
    raw.buffer_data_i32(BufferKind::Array, &v, DataHint::StaticDraw);
    assert_eq!(generic.calls, raw.calls);
    assert_eq!(generic.calls.len(), 1);
}

#[test]
fn image_upload_matches_raw_i32() {
    let v: Vec<i32> = vec![7, 8, 9, 10];
    let mut generic = WebGL2RenderingContext::new();
    let r = v.tex_image_2d(
        &mut generic,
        TextureBindPoint::Texture2d,
        0,
        PixelCopyFormat::Rgba,
        2,
        2,
        PixelCopyFormat::Rgba,
        PixelType::UnsignedByte,
    );
    assert!(r.is_ok());
    let mut raw = WebGL2RenderingContext::new();
    raw.tex_image_2d_i32(
        TextureBindPoint::Texture2d,
        0,
        PixelCopyFormat::Rgba,
        2,
        2,
        0,
        PixelCopyFormat::Rgba,
        PixelType::UnsignedByte,
        &v,
    );
    assert_eq!(generic.calls, raw.calls);
    assert_eq!(generic.calls.len(), 1);
}

#[test]
fn buffer_upload_copies_data_verbatim() {
    let v: Vec<u16> = vec![0, 1, 65535, 42];
    let mut ctx = WebGL2RenderingContext::new();
    v.buffer_data(&mut ctx, BufferKind::ElementArray, DataHint::DynamicDraw);
    match &ctx.calls[0] {
        webgl2::call::Call::BufferDataU16 { target, src_data, usage } => {
            assert_eq!(*target, 0x8893);
            assert_eq!(src_data, &v);
            assert_eq!(*usage, 0x88E8);
        }
        other => panic!("unexpected call {:?}", other),
    }
}

#[test]
fn image_upload_fixes_border_to_zero() {
    let v: Vec<u8> = vec![1, 2, 3, 4];
    let mut ctx = WebGL2RenderingContext::new();
    v.tex_image_2d(
        &mut ctx,
        TextureBindPoint::TextureCubeMapPositiveX,
        1,
        PixelCopyFormat::Rgb,
        2,
        2,
        PixelCopyFormat::Rgb,
        PixelType::UnsignedShort565,
    )
    .unwrap();
    match &ctx.calls[0] {
        webgl2::call::Call::TexImage2dU8 { target, level, border, src_data, .. } => {
            assert_eq!(*target, 0x8515);
            assert_eq!(*level, 1);
            assert_eq!(*border, 0);
            assert_eq!(src_data, &v);
        }
        other => panic!("unexpected call {:?}", other),
    }
}
