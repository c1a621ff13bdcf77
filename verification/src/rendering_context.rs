//! The context facade: one typed method per external operation.
//!
//! The context models a live connection as the exact sequence of wire-level
//! calls it has issued, in program order, together with a queue of raw
//! replies standing for what the external API answers to queries.  Commands
//! append one call; queries append one call and consume one reply; creation
//! operations additionally assign the next fresh handle identifier.  The
//! external binding that performs the calls lives outside the verified
//! library and hands raw replies back through the queue.
//!
//! The generic parameter queries return a raw [`Reply`]; beside them stand
//! narrowed convenience operations, each of which fixes the parameter-name
//! argument to one constant of the taxonomy and narrows the result to the
//! precise type that constant is documented to yield.

use vstd::prelude::*;

use crate::call::Call;
use crate::call::Reply;
use crate::glenum::AttributeSize;
use crate::glenum::AttributeType;
use crate::glenum::BlendEquation;
use crate::glenum::BlendMode;
use crate::glenum::BufferBit;
use crate::glenum::BufferKind;
use crate::glenum::BufferParameter;
use crate::glenum::ColorBuffer;
use crate::glenum::Culling;
use crate::glenum::DataHint;
use crate::glenum::DataType;
use crate::glenum::DepthTest;
use crate::glenum::Error;
use crate::glenum::Flag;
use crate::glenum::FramebufferKind;
use crate::glenum::FrontFaceDirection;
use crate::glenum::GPUState;
use crate::glenum::HintMode;
use crate::glenum::HintTarget;
use crate::glenum::InformationType;
use crate::glenum::PixelCopyFormat;
use crate::glenum::PixelReadFormat;
use crate::glenum::PixelStorageMode;
use crate::glenum::PixelType;
use crate::glenum::Primitives;
use crate::glenum::Query;
use crate::glenum::QueryParameter;
use crate::glenum::QueryTarget;
use crate::glenum::RenderbufferFormat;
use crate::glenum::RenderbufferKind;
use crate::glenum::RenderbufferParameter;
use crate::glenum::ShaderKind;
use crate::glenum::ShaderPrecision;
use crate::glenum::StencilAction;
use crate::glenum::StencilTest;
use crate::glenum::Texture2DKind;
use crate::glenum::Texture3DKind;
use crate::glenum::TextureBindPoint;
use crate::glenum::TextureKind;
use crate::glenum::TextureMagFilter;
use crate::glenum::TextureParameter;
use crate::glenum::TextureUnit;
use crate::glenum::TransformFeedback;
use crate::glenum::TransformFeedbackMode;
use crate::glenum::VertexAttrib;
use crate::glenum::WaitStatus;
use crate::handles::WebGLQuery;
use crate::handles::WebGLSampler;
use crate::handles::WebGLShaderPrecisionFormat;
use crate::handles::WebGLSync;
use crate::handles::WebGLTransformFeedback;
use crate::handles::WebGLUniformLocation;
use crate::call::is_buffer_data_u8;
use crate::call::is_buffer_data_i8;
use crate::call::is_buffer_data_u16;
use crate::call::is_buffer_data_i16;
use crate::call::is_buffer_data_u32;
use crate::call::is_buffer_data_i32;
use crate::call::is_buffer_sub_data;
use crate::call::is_get_buffer_sub_data;
use crate::call::is_read_pixels;
use crate::call::is_tex_image_2d_u8;
use crate::call::is_tex_image_2d_i8;
use crate::call::is_tex_image_2d_u16;
use crate::call::is_tex_image_2d_i16;
use crate::call::is_tex_image_2d_u32;
use crate::call::is_tex_image_2d_i32;
use crate::call::is_tex_image_3d;
use crate::call::is_tex_sub_image_3d;
use crate::call::is_uniform_1iv;
use crate::call::is_uniform_2iv;
use crate::call::is_uniform_3iv;
use crate::call::is_uniform_4iv;
use crate::call::is_uniform_1uiv;
use crate::call::is_uniform_2uiv;
use crate::call::is_uniform_3uiv;
use crate::call::is_uniform_4uiv;
use crate::call::is_vertex_attrib_i_4iv;
use crate::call::is_vertex_attrib_i_4uiv;
use crate::call::is_clear_buffer_iv;
use crate::call::is_clear_buffer_uiv;

verus! {

/// One connection to a rendering surface, modelled as the sequence of calls
/// issued so far and the replies the external API has in store.
pub struct WebGL2RenderingContext {
    /// Every call issued so far, in program order.
    pub calls: Vec<Call>,
    /// Raw replies the external API will give to the next queries, in order.
    pub replies: Vec<Reply>,
    /// The identifier the next creation operation will assign.
    pub next_handle: u64,
}

impl WebGL2RenderingContext {
    /// The step from `pre` to `post` issued exactly the command `c`.
    pub open spec fn issued(pre: Self, post: Self, c: Call) -> bool {
        &&& post.calls@ == pre.calls@.push(c)
        &&& post.replies@ == pre.replies@
        &&& post.next_handle == pre.next_handle
    }

    /// The step from `pre` to `post` issued exactly one command, to be
    /// described separately where the command carries bulk data.
    pub open spec fn issued_one(pre: Self, post: Self) -> bool {
        &&& post.calls@.len() == pre.calls@.len() + 1
        &&& post.calls@.drop_last() == pre.calls@
        &&& post.replies@ == pre.replies@
        &&& post.next_handle == pre.next_handle
    }

    /// The step from `pre` to `post` issued exactly the query `c` and
    /// consumed one reply if one was in store.
    pub open spec fn queried(pre: Self, post: Self, c: Call) -> bool {
        &&& post.calls@ == pre.calls@.push(c)
        &&& post.next_handle == pre.next_handle
        &&& if pre.replies@.len() == 0 {
            post.replies@ == pre.replies@
        } else {
            post.replies@ == pre.replies@.drop_first()
        }
    }

    /// The reply a query starting from `pre` consumes, if one is in store.
    pub open spec fn taken_reply(pre: Self) -> Option<Reply> {
        if pre.replies@.len() == 0 {
            None
        } else {
            Some(pre.replies@[0])
        }
    }

    /// The step from `pre` to `post` issued exactly the creation command `c`
    /// and assigned one fresh handle identifier.
    pub open spec fn created(pre: Self, post: Self, c: Call) -> bool {
        &&& post.calls@ == pre.calls@.push(c)
        &&& post.replies@ == pre.replies@
        &&& post.next_handle == pre.next_handle + 1
    }

    /// A connection with nothing issued, no replies in store, and handle
    /// identifiers starting at zero.
    pub fn new() -> (ctx: WebGL2RenderingContext)
        ensures
            ctx.calls@ == Seq::<Call>::empty(),
            ctx.replies@ == Seq::<Reply>::empty(),
            ctx.next_handle == 0,
    {
        WebGL2RenderingContext { calls: Vec::new(), replies: Vec::new(), next_handle: 0 }
    }

    /// Put `r` in store as the reply to the next query.
    pub fn script_reply(&mut self, r: Reply)
        ensures
            final(self).calls@ == old(self).calls@,
            final(self).replies@ == old(self).replies@.push(r),
            final(self).next_handle == old(self).next_handle,
    {
        self.replies.push(r);
    }

    /// Take the reply in store for the query being issued, if any.
    fn take_reply(&mut self) -> (r: Option<Reply>)
        ensures
            final(self).calls@ == old(self).calls@,
            final(self).next_handle == old(self).next_handle,
            r == Self::taken_reply(*old(self)),
            if old(self).replies@.len() == 0 {
                final(self).replies@ == old(self).replies@
            } else {
                final(self).replies@ == old(self).replies@.drop_first()
            },
    {
        if self.replies.len() > 0 {
            let rep = self.replies.remove(0);
            proof {
                assert(self.replies@ =~= old(self).replies@.drop_first());
            }
            Some(rep)
        } else {
            None
        }
    }

    /// Limits drawing to a rectangle of the drawing buffer.
    pub fn scissor(&mut self, x: i32, y: i32, width: u32, height: u32)
        ensures
            Self::issued(*old(self), *final(self), Call::Scissor { x, y, width, height }),
    {
        let c = Call::Scissor { x, y, width, height };
        self.calls.push(c);
    }

    /// Sets the affine transformation from normalized device coordinates to window coordinates.
    pub fn viewport(&mut self, x: i32, y: i32, width: u32, height: u32)
        ensures
            Self::issued(*old(self), *final(self), Call::Viewport { x, y, width, height }),
    {
        let c = Call::Viewport { x, y, width, height };
        self.calls.push(c);
    }

    /// Selects which texture unit subsequent texture operations address.
    pub fn active_texture(&mut self, texture: TextureUnit)
        ensures
            Self::issued(*old(self), *final(self), Call::ActiveTexture { texture: texture.spec_code() }),
    {
        let c = Call::ActiveTexture { texture: texture.code() };
        self.calls.push(c);
    }

    /// Sets both the RGB and the alpha blend equation to one equation.
    pub fn blend_equation(&mut self, mode: BlendEquation)
        ensures
            Self::issued(*old(self), *final(self), Call::BlendEquation { mode: mode.spec_code() }),
    {
        let c = Call::BlendEquation { mode: mode.code() };
        self.calls.push(c);
    }

    /// Sets the RGB and the alpha blend equation separately.
    pub fn blend_equation_separate(&mut self, mode_rgb: BlendEquation, mode_alpha: BlendEquation)
        ensures
            Self::issued(*old(self), *final(self), Call::BlendEquationSeparate { mode_rgb: mode_rgb.spec_code(), mode_alpha: mode_alpha.spec_code() }),
    {
        let c = Call::BlendEquationSeparate { mode_rgb: mode_rgb.code(), mode_alpha: mode_alpha.code() };
        self.calls.push(c);
    }

    /// Defines which function is used for blending pixel arithmetic.
    pub fn blend_func(&mut self, sfactor: BlendMode, dfactor: BlendMode)
        ensures
            Self::issued(*old(self), *final(self), Call::BlendFunc { sfactor: sfactor.spec_code(), dfactor: dfactor.spec_code() }),
    {
        let c = Call::BlendFunc { sfactor: sfactor.code(), dfactor: dfactor.code() };
        self.calls.push(c);
    }

    /// Defines the blending functions for RGB and alpha components separately.
    pub fn blend_func_separate(&mut self, src_rgb: BlendMode, dst_rgb: BlendMode, src_alpha: BlendMode, dst_alpha: BlendMode)
        ensures
            Self::issued(*old(self), *final(self), Call::BlendFuncSeparate { src_rgb: src_rgb.spec_code(), dst_rgb: dst_rgb.spec_code(), src_alpha: src_alpha.spec_code(), dst_alpha: dst_alpha.spec_code() }),
    {
        let c = Call::BlendFuncSeparate { src_rgb: src_rgb.code(), dst_rgb: dst_rgb.code(), src_alpha: src_alpha.code(), dst_alpha: dst_alpha.code() };
        self.calls.push(c);
    }

    /// Specifies the clear value for the stencil buffer.
    pub fn clear_stencil(&mut self, s: i32)
        ensures
            Self::issued(*old(self), *final(self), Call::ClearStencil { s }),
    {
        let c = Call::ClearStencil { s };
        self.calls.push(c);
    }

    /// Sets which color components to enable or disable when drawing.
    pub fn color_mask(&mut self, red: bool, green: bool, blue: bool, alpha: bool)
        ensures
            Self::issued(*old(self), *final(self), Call::ColorMask { red, green, blue, alpha }),
    {
        let c = Call::ColorMask { red, green, blue, alpha };
        self.calls.push(c);
    }

    /// Specifies whether front- or back-facing polygons are culled.
    pub fn cull_face(&mut self, mode: Culling)
        ensures
            Self::issued(*old(self), *final(self), Call::CullFace { mode: mode.spec_code() }),
    {
        let c = Call::CullFace { mode: mode.code() };
        self.calls.push(c);
    }

    /// Specifies the function comparing incoming pixel depth against the depth buffer.
    pub fn depth_func(&mut self, func: DepthTest)
        ensures
            Self::issued(*old(self), *final(self), Call::DepthFunc { func: func.spec_code() }),
    {
        let c = Call::DepthFunc { func: func.code() };
        self.calls.push(c);
    }

    /// Sets whether writing into the depth buffer is enabled.
    pub fn depth_mask(&mut self, flag: bool)
        ensures
            Self::issued(*old(self), *final(self), Call::DepthMask { flag }),
    {
        let c = Call::DepthMask { flag };
        self.calls.push(c);
    }

    /// Disables a capability for this context.
    pub fn disable(&mut self, cap: Flag)
        ensures
            Self::issued(*old(self), *final(self), Call::Disable { cap: cap.spec_code() }),
    {
        let c = Call::Disable { cap: cap.code() };
        self.calls.push(c);
    }

    /// Enables a capability for this context.
    pub fn enable(&mut self, cap: Flag)
        ensures
            Self::issued(*old(self), *final(self), Call::Enable { cap: cap.spec_code() }),
    {
        let c = Call::Enable { cap: cap.code() };
        self.calls.push(c);
    }

    /// Specifies the winding orientation of front-facing polygons.
    pub fn front_face(&mut self, mode: FrontFaceDirection)
        ensures
            Self::issued(*old(self), *final(self), Call::FrontFace { mode: mode.spec_code() }),
    {
        let c = Call::FrontFace { mode: mode.code() };
        self.calls.push(c);
    }

    /// States a quality preference for a behaviour; its interpretation is implementation dependent.
    pub fn hint(&mut self, target: HintTarget, mode: HintMode)
        ensures
            Self::issued(*old(self), *final(self), Call::Hint { target: target.spec_code(), mode: mode.spec_code() }),
    {
        let c = Call::Hint { target: target.code(), mode: mode.code() };
        self.calls.push(c);
    }

    /// Asks whether a capability is enabled; the answer travels outside this call.
    pub fn is_enabled(&mut self, cap: Flag)
        ensures
            Self::issued(*old(self), *final(self), Call::IsEnabled { cap: cap.spec_code() }),
    {
        let c = Call::IsEnabled { cap: cap.code() };
        self.calls.push(c);
    }

    /// Specifies one pixel storage mode.
    pub fn pixel_storei(&mut self, pname: PixelStorageMode, param: i32)
        ensures
            Self::issued(*old(self), *final(self), Call::PixelStorei { pname: pname.spec_code(), param }),
    {
        let c = Call::PixelStorei { pname: pname.code(), param };
        self.calls.push(c);
    }

    /// Sets the front and back function and reference value for stencil testing.
    pub fn stencil_func(&mut self, func: StencilTest, reference: i32, mask: u32)
        ensures
            Self::issued(*old(self), *final(self), Call::StencilFunc { func: func.spec_code(), reference, mask }),
    {
        let c = Call::StencilFunc { func: func.code(), reference, mask };
        self.calls.push(c);
    }

    /// Sets the stencil test function and reference value for the given faces only.
    pub fn stencil_func_separate(&mut self, face: Culling, func: StencilTest, reference: i32, mask: u32)
        ensures
            Self::issued(*old(self), *final(self), Call::StencilFuncSeparate { face: face.spec_code(), func: func.spec_code(), reference, mask }),
    {
        let c = Call::StencilFuncSeparate { face: face.code(), func: func.code(), reference, mask };
        self.calls.push(c);
    }

    /// Controls front and back writing of individual bits in the stencil planes.
    pub fn stencil_mask(&mut self, mask: u32)
        ensures
            Self::issued(*old(self), *final(self), Call::StencilMask { mask }),
    {
        let c = Call::StencilMask { mask };
        self.calls.push(c);
    }

    /// Controls writing of individual stencil bits for the given faces only.
    pub fn stencil_mask_separate(&mut self, face: Culling, mask: u32)
        ensures
            Self::issued(*old(self), *final(self), Call::StencilMaskSeparate { face: face.spec_code(), mask }),
    {
        let c = Call::StencilMaskSeparate { face: face.code(), mask };
        self.calls.push(c);
    }

    /// Sets both the front and back-facing stencil test actions.
    pub fn stencil_op(&mut self, fail: StencilAction, zfail: StencilAction, zpass: StencilAction)
        ensures
            Self::issued(*old(self), *final(self), Call::StencilOp { fail: fail.spec_code(), zfail: zfail.spec_code(), zpass: zpass.spec_code() }),
    {
        let c = Call::StencilOp { fail: fail.code(), zfail: zfail.code(), zpass: zpass.code() };
        self.calls.push(c);
    }

    /// Sets the stencil test actions for the given faces only.
    pub fn stencil_op_separate(&mut self, face: Culling, fail: StencilAction, zfail: StencilAction, zpass: StencilAction)
        ensures
            Self::issued(*old(self), *final(self), Call::StencilOpSeparate { face: face.spec_code(), fail: fail.spec_code(), zfail: zfail.spec_code(), zpass: zpass.spec_code() }),
    {
        let c = Call::StencilOpSeparate { face: face.code(), fail: fail.code(), zfail: zfail.code(), zpass: zpass.code() };
        self.calls.push(c);
    }

    /// Asks for the completeness status of the bound framebuffer.
    pub fn check_framebuffer_status(&mut self, target: FramebufferKind)
        ensures
            Self::issued(*old(self), *final(self), Call::CheckFramebufferStatus { target: target.spec_code() }),
    {
        let c = Call::CheckFramebufferStatus { target: target.code() };
        self.calls.push(c);
    }

    /// Creates and initializes the data store of the bound renderbuffer.
    pub fn renderbuffer_storage(&mut self, target: RenderbufferKind, internal_format: RenderbufferFormat, width: u32, height: u32)
        ensures
            Self::issued(*old(self), *final(self), Call::RenderbufferStorage { target: target.spec_code(), internal_format: internal_format.spec_code(), width, height }),
    {
        let c = Call::RenderbufferStorage { target: target.code(), internal_format: internal_format.code(), width, height };
        self.calls.push(c);
    }

    /// Copies pixels from the current framebuffer into a 2D texture image.
    pub fn copy_tex_image_2d(&mut self, target: TextureBindPoint, level: u32, internalformat: PixelCopyFormat, x: i32, y: i32, width: u32, height: u32, border: u32)
        ensures
            Self::issued(*old(self), *final(self), Call::CopyTexImage2d { target: target.spec_code(), level, internalformat: internalformat.spec_code(), x, y, width, height, border }),
    {
        let c = Call::CopyTexImage2d { target: target.code(), level, internalformat: internalformat.code(), x, y, width, height, border };
        self.calls.push(c);
    }

    /// Copies pixels from the current framebuffer into an existing 2D texture sub-image.
    pub fn copy_tex_sub_image_2d(&mut self, target: TextureBindPoint, level: u32, xoffset: i32, yoffset: i32, x: i32, y: i32, width: u32, height: u32)
        ensures
            Self::issued(*old(self), *final(self), Call::CopyTexSubImage2d { target: target.spec_code(), level, xoffset, yoffset, x, y, width, height }),
    {
        let c = Call::CopyTexSubImage2d { target: target.code(), level, xoffset, yoffset, x, y, width, height };
        self.calls.push(c);
    }

    /// Generates the set of mipmaps for the bound texture.
    pub fn generate_mipmap(&mut self, target: TextureKind)
        ensures
            Self::issued(*old(self), *final(self), Call::GenerateMipmap { target: target.spec_code() }),
    {
        let c = Call::GenerateMipmap { target: target.code() };
        self.calls.push(c);
    }

    /// Sets an integer-valued texture parameter.
    pub fn tex_parameter_i(&mut self, target: TextureKind, pname: TextureParameter, param: i32)
        ensures
            Self::issued(*old(self), *final(self), Call::TexParameterI { target: target.spec_code(), pname: pname.spec_code(), param }),
    {
        let c = Call::TexParameterI { target: target.code(), pname: pname.code(), param };
        self.calls.push(c);
    }

    /// Turns the generic vertex attribute array off at the given index.
    pub fn disable_vertex_attrib_array(&mut self, index: u32)
        ensures
            Self::issued(*old(self), *final(self), Call::DisableVertexAttribArray { index }),
    {
        let c = Call::DisableVertexAttribArray { index };
        self.calls.push(c);
    }

    /// Turns the generic vertex attribute array on at the given index.
    pub fn enable_vertex_attrib_array(&mut self, index: u32)
        ensures
            Self::issued(*old(self), *final(self), Call::EnableVertexAttribArray { index }),
    {
        let c = Call::EnableVertexAttribArray { index };
        self.calls.push(c);
    }

    /// Binds the buffer bound to the array target to a vertex attribute and specifies its layout.
    pub fn vertex_attrib_pointer(&mut self, index: u32, size: AttributeSize, attribute_type: AttributeType, normalized: bool, stride: u8, offset: i32)
        ensures
            Self::issued(*old(self), *final(self), Call::VertexAttribPointer { index, size: size.spec_code(), attribute_type: attribute_type.spec_code(), normalized, stride, offset }),
    {
        let c = Call::VertexAttribPointer { index, size: size.code(), attribute_type: attribute_type.code(), normalized, stride, offset };
        self.calls.push(c);
    }

    /// Clears the selected buffers to their preset values.
    pub fn clear(&mut self, mask: BufferBit)
        ensures
            Self::issued(*old(self), *final(self), Call::Clear { mask: mask.spec_code() }),
    {
        let c = Call::Clear { mask: mask.code() };
        self.calls.push(c);
    }

    /// Renders primitives from array data.
    pub fn draw_arrays(&mut self, mode: Primitives, first: u32, count: u32)
        ensures
            Self::issued(*old(self), *final(self), Call::DrawArrays { mode: mode.spec_code(), first, count }),
    {
        let c = Call::DrawArrays { mode: mode.code(), first, count };
        self.calls.push(c);
    }

    /// Renders primitives from element index data.
    pub fn draw_elements(&mut self, mode: Primitives, count: u32, data_type: DataType, offset: i64)
        ensures
            Self::issued(*old(self), *final(self), Call::DrawElements { mode: mode.spec_code(), count, data_type: data_type.spec_code(), offset }),
    {
        let c = Call::DrawElements { mode: mode.code(), count, data_type: data_type.code(), offset };
        self.calls.push(c);
    }

    /// Blocks until all previously issued commands are finished.
    pub fn finish(&mut self)
        ensures
            Self::issued(*old(self), *final(self), Call::Finish),
    {
        let c = Call::Finish;
        self.calls.push(c);
    }

    /// Empties the command buffers, so that all commands are executed as quickly as possible.
    pub fn flush(&mut self)
        ensures
            Self::issued(*old(self), *final(self), Call::Flush),
    {
        let c = Call::Flush;
        self.calls.push(c);
    }

    /// Copies part of the data of one buffer to another buffer.
    pub fn copy_buffer_sub_data(&mut self, read_target: BufferKind, write_target: BufferKind, read_offset: i64, write_offset: i64, size: u32)
        ensures
            Self::issued(*old(self), *final(self), Call::CopyBufferSubData { read_target: read_target.spec_code(), write_target: write_target.spec_code(), read_offset, write_offset, size }),
    {
        let c = Call::CopyBufferSubData { read_target: read_target.code(), write_target: write_target.code(), read_offset, write_offset, size };
        self.calls.push(c);
    }

    /// Transfers a block of pixels from the read framebuffer to the draw framebuffer.
    pub fn blit_framebuffer(&mut self, src_x0: i32, src_y0: i32, src_x1: i32, src_y1: i32, dst_x0: i32, dst_y0: i32, dst_x1: i32, dst_y1: i32, mask: BufferBit, filter: TextureMagFilter)
        ensures
            Self::issued(*old(self), *final(self), Call::BlitFramebuffer { src_x0, src_y0, src_x1, src_y1, dst_x0, dst_y0, dst_x1, dst_y1, mask: mask.spec_code(), filter: filter.spec_code() }),
    {
        let c = Call::BlitFramebuffer { src_x0, src_y0, src_x1, src_y1, dst_x0, dst_y0, dst_x1, dst_y1, mask: mask.code(), filter: filter.code() };
        self.calls.push(c);
    }

    /// Selects the color buffer that subsequent pixel reads and copies take their source from.
    pub fn read_buffer(&mut self, src: ColorBuffer)
        ensures
            Self::issued(*old(self), *final(self), Call::ReadBuffer { src: src.spec_code() }),
    {
        let c = Call::ReadBuffer { src: src.code() };
        self.calls.push(c);
    }

    /// Creates and initializes the data store of the bound renderbuffer with a sample count.
    pub fn renderbuffer_storage_multisample(&mut self, target: RenderbufferKind, samples: u32, internal_format: RenderbufferFormat, width: u32, height: u32)
        ensures
            Self::issued(*old(self), *final(self), Call::RenderbufferStorageMultisample { target: target.spec_code(), samples, internal_format: internal_format.spec_code(), width, height }),
    {
        let c = Call::RenderbufferStorageMultisample { target: target.code(), samples, internal_format: internal_format.code(), width, height };
        self.calls.push(c);
    }

    /// Specifies all levels of two-dimensional texture storage.
    pub fn tex_storage_2d(&mut self, target: Texture2DKind, levels: u32, internal_format: RenderbufferFormat, width: u32, height: u32)
        ensures
            Self::issued(*old(self), *final(self), Call::TexStorage2d { target: target.spec_code(), levels, internal_format: internal_format.spec_code(), width, height }),
    {
        let c = Call::TexStorage2d { target: target.code(), levels, internal_format: internal_format.code(), width, height };
        self.calls.push(c);
    }

    /// Specifies all levels of three-dimensional or array texture storage.
    pub fn tex_storage_3d(&mut self, target: Texture3DKind, levels: u32, internalformat: RenderbufferFormat, width: u32, height: u32, depth: u32)
        ensures
            Self::issued(*old(self), *final(self), Call::TexStorage3d { target: target.spec_code(), levels, internalformat: internalformat.spec_code(), width, height, depth }),
    {
        let c = Call::TexStorage3d { target: target.code(), levels, internalformat: internalformat.code(), width, height, depth };
        self.calls.push(c);
    }

    /// Copies pixels from the current framebuffer into an existing 3D texture sub-image.
    pub fn copy_tex_sub_image_3d(&mut self, target: Texture3DKind, level: u32, xoffset: u32, yoffset: u32, zoffset: u32, x: u32, y: u32, width: u32, height: u32)
        ensures
            Self::issued(*old(self), *final(self), Call::CopyTexSubImage3d { target: target.spec_code(), level, xoffset, yoffset, zoffset, x, y, width, height }),
    {
        let c = Call::CopyTexSubImage3d { target: target.code(), level, xoffset, yoffset, zoffset, x, y, width, height };
        self.calls.push(c);
    }

    /// Modifies the rate at which a generic vertex attribute advances under instanced rendering.
    pub fn vertex_attrib_divisor(&mut self, index: u32, divisor: u32)
        ensures
            Self::issued(*old(self), *final(self), Call::VertexAttribDivisor { index, divisor }),
    {
        let c = Call::VertexAttribDivisor { index, divisor };
        self.calls.push(c);
    }

    /// Renders primitives from array data, executing several instances of the range.
    pub fn draw_arrays_instanced(&mut self, mode: Primitives, first: i32, count: u32, instance_count: u32)
        ensures
            Self::issued(*old(self), *final(self), Call::DrawArraysInstanced { mode: mode.spec_code(), first, count, instance_count }),
    {
        let c = Call::DrawArraysInstanced { mode: mode.code(), first, count, instance_count };
        self.calls.push(c);
    }

    /// Renders primitives from element index data, executing several instances of the set.
    pub fn draw_elements_instanced(&mut self, mode: Primitives, count: u32, data_type: AttributeType, offset: i64, instance_count: u32)
        ensures
            Self::issued(*old(self), *final(self), Call::DrawElementsInstanced { mode: mode.spec_code(), count, data_type: data_type.spec_code(), offset, instance_count }),
    {
        let c = Call::DrawElementsInstanced { mode: mode.code(), count, data_type: data_type.code(), offset, instance_count };
        self.calls.push(c);
    }

    /// Renders primitives from element index data within a given index range.
    pub fn draw_range_elements(&mut self, mode: Primitives, start: u32, end: u32, count: u32, data_type: AttributeType, offset: i64)
        ensures
            Self::issued(*old(self), *final(self), Call::DrawRangeElements { mode: mode.spec_code(), start, end, count, data_type: data_type.spec_code(), offset }),
    {
        let c = Call::DrawRangeElements { mode: mode.code(), start, end, count, data_type: data_type.code(), offset };
        self.calls.push(c);
    }

    /// Specifies four signed integer values for a generic vertex attribute.
    pub fn vertex_attrib_i_4i(&mut self, index: u32, v0: i32, v1: i32, v2: i32, v3: i32)
        ensures
            Self::issued(*old(self), *final(self), Call::VertexAttribI4i { index, v0, v1, v2, v3 }),
    {
        let c = Call::VertexAttribI4i { index, v0, v1, v2, v3 };
        self.calls.push(c);
    }

    /// Specifies four unsigned integer values for a generic vertex attribute.
    pub fn vertex_attrib_i_4ui(&mut self, index: u32, v0: u32, v1: u32, v2: u32, v3: u32)
        ensures
            Self::issued(*old(self), *final(self), Call::VertexAttribI4ui { index, v0, v1, v2, v3 }),
    {
        let c = Call::VertexAttribI4ui { index, v0, v1, v2, v3 };
        self.calls.push(c);
    }

    /// Specifies the integer data format and location of a vertex attribute array.
    pub fn vertex_attrib_i_pointer(&mut self, index: u32, size: AttributeSize, data_type: AttributeType, stride: u32, offset: i64)
        ensures
            Self::issued(*old(self), *final(self), Call::VertexAttribIPointer { index, size: size.spec_code(), data_type: data_type.spec_code(), stride, offset }),
    {
        let c = Call::VertexAttribIPointer { index, size: size.code(), data_type: data_type.code(), stride, offset };
        self.calls.push(c);
    }

    /// Specifies one signed integer value for a uniform variable.
    pub fn uniform_1i(&mut self, location: &WebGLUniformLocation, v0: i32)
        ensures
            Self::issued(*old(self), *final(self), Call::Uniform1i { location: location.spec_id(), v0 }),
    {
        let c = Call::Uniform1i { location: location.id(), v0 };
        self.calls.push(c);
    }

    /// Specifies two signed integer values for a uniform variable.
    pub fn uniform_2i(&mut self, location: &WebGLUniformLocation, v0: i32, v1: i32)
        ensures
            Self::issued(*old(self), *final(self), Call::Uniform2i { location: location.spec_id(), v0, v1 }),
    {
        let c = Call::Uniform2i { location: location.id(), v0, v1 };
        self.calls.push(c);
    }

    /// Specifies three signed integer values for a uniform variable.
    pub fn uniform_3i(&mut self, location: &WebGLUniformLocation, v0: i32, v1: i32, v2: i32)
        ensures
            Self::issued(*old(self), *final(self), Call::Uniform3i { location: location.spec_id(), v0, v1, v2 }),
    {
        let c = Call::Uniform3i { location: location.id(), v0, v1, v2 };
        self.calls.push(c);
    }

    /// Specifies four signed integer values for a uniform variable.
    pub fn uniform_4i(&mut self, location: &WebGLUniformLocation, v0: i32, v1: i32, v2: i32, v3: i32)
        ensures
            Self::issued(*old(self), *final(self), Call::Uniform4i { location: location.spec_id(), v0, v1, v2, v3 }),
    {
        let c = Call::Uniform4i { location: location.id(), v0, v1, v2, v3 };
        self.calls.push(c);
    }

    /// Specifies one unsigned integer value for a uniform variable.
    pub fn uniform_1ui(&mut self, location: &WebGLUniformLocation, v0: u32)
        ensures
            Self::issued(*old(self), *final(self), Call::Uniform1ui { location: location.spec_id(), v0 }),
    {
        let c = Call::Uniform1ui { location: location.id(), v0 };
        self.calls.push(c);
    }

    /// Specifies two unsigned integer values for a uniform variable.
    pub fn uniform_2ui(&mut self, location: &WebGLUniformLocation, v0: u32, v1: u32)
        ensures
            Self::issued(*old(self), *final(self), Call::Uniform2ui { location: location.spec_id(), v0, v1 }),
    {
        let c = Call::Uniform2ui { location: location.id(), v0, v1 };
        self.calls.push(c);
    }

    /// Specifies three unsigned integer values for a uniform variable.
    pub fn uniform_3ui(&mut self, location: &WebGLUniformLocation, v0: u32, v1: u32, v2: u32)
        ensures
            Self::issued(*old(self), *final(self), Call::Uniform3ui { location: location.spec_id(), v0, v1, v2 }),
    {
        let c = Call::Uniform3ui { location: location.id(), v0, v1, v2 };
        self.calls.push(c);
    }

    /// Specifies four unsigned integer values for a uniform variable.
    pub fn uniform_4ui(&mut self, location: &WebGLUniformLocation, v0: u32, v1: u32, v2: u32, v3: u32)
        ensures
            Self::issued(*old(self), *final(self), Call::Uniform4ui { location: location.spec_id(), v0, v1, v2, v3 }),
    {
        let c = Call::Uniform4ui { location: location.id(), v0, v1, v2, v3 };
        self.calls.push(c);
    }

    /// Deletes a query object; the handle is meaningless afterwards.
    pub fn delete_query(&mut self, query: &WebGLQuery)
        ensures
            Self::issued(*old(self), *final(self), Call::DeleteQuery { query: query.spec_id() }),
    {
        let c = Call::DeleteQuery { query: query.id() };
        self.calls.push(c);
    }

    /// Asks whether the handle names a valid query object; the answer travels outside this call.
    pub fn is_query(&mut self, query: &WebGLQuery)
        ensures
            Self::issued(*old(self), *final(self), Call::IsQuery { query: query.spec_id() }),
    {
        let c = Call::IsQuery { query: query.id() };
        self.calls.push(c);
    }

    /// Starts an asynchronous query of the given kind on the query object.
    pub fn begin_query(&mut self, target: QueryTarget, query: &WebGLQuery)
        ensures
            Self::issued(*old(self), *final(self), Call::BeginQuery { target: target.spec_code(), query: query.spec_id() }),
    {
        let c = Call::BeginQuery { target: target.code(), query: query.id() };
        self.calls.push(c);
    }

    /// Marks the end of the asynchronous query of the given kind.
    pub fn end_query(&mut self, target: QueryTarget)
        ensures
            Self::issued(*old(self), *final(self), Call::EndQuery { target: target.spec_code() }),
    {
        let c = Call::EndQuery { target: target.code() };
        self.calls.push(c);
    }

    /// Deletes a sampler object; the handle is meaningless afterwards.
    pub fn delete_sampler(&mut self, sampler: &WebGLSampler)
        ensures
            Self::issued(*old(self), *final(self), Call::DeleteSampler { sampler: sampler.spec_id() }),
    {
        let c = Call::DeleteSampler { sampler: sampler.id() };
        self.calls.push(c);
    }

    /// Binds a sampler object to the texture unit at the given index.
    pub fn bind_sampler(&mut self, unit: u32, sampler: &WebGLSampler)
        ensures
            Self::issued(*old(self), *final(self), Call::BindSampler { unit, sampler: sampler.spec_id() }),
    {
        let c = Call::BindSampler { unit, sampler: sampler.id() };
        self.calls.push(c);
    }

    /// Asks whether the handle names a valid sampler object; the answer travels outside this call.
    pub fn is_sampler(&mut self, sampler: &WebGLSampler)
        ensures
            Self::issued(*old(self), *final(self), Call::IsSampler { sampler: sampler.spec_id() }),
    {
        let c = Call::IsSampler { sampler: sampler.id() };
        self.calls.push(c);
    }

    /// Deletes a sync object; the handle is meaningless afterwards.
    pub fn delete_sync(&mut self, sync: &WebGLSync)
        ensures
            Self::issued(*old(self), *final(self), Call::DeleteSync { sync: sync.spec_id() }),
    {
        let c = Call::DeleteSync { sync: sync.id() };
        self.calls.push(c);
    }

    /// Returns immediately but makes the GL server wait until the sync object is signaled.
    pub fn wait_sync(&mut self, sync: &WebGLSync, flags: u32, timeout: i64)
        ensures
            Self::issued(*old(self), *final(self), Call::WaitSync { sync: sync.spec_id(), flags, timeout }),
    {
        let c = Call::WaitSync { sync: sync.id(), flags, timeout };
        self.calls.push(c);
    }

    /// Deletes a transform feedback object; the handle is meaningless afterwards.
    pub fn delete_transform_feedback(&mut self, transform_feedback: &WebGLTransformFeedback)
        ensures
            Self::issued(*old(self), *final(self), Call::DeleteTransformFeedback { transform_feedback: transform_feedback.spec_id() }),
    {
        let c = Call::DeleteTransformFeedback { transform_feedback: transform_feedback.id() };
        self.calls.push(c);
    }

    /// Binds a transform feedback object to the current state.
    pub fn bind_transform_feedback(&mut self, target: TransformFeedback, transform_feedback: &WebGLTransformFeedback)
        ensures
            Self::issued(*old(self), *final(self), Call::BindTransformFeedback { target: target.spec_code(), transform_feedback: transform_feedback.spec_id() }),
    {
        let c = Call::BindTransformFeedback { target: target.code(), transform_feedback: transform_feedback.id() };
        self.calls.push(c);
    }

    /// Starts a transform feedback operation.
    pub fn begin_transform_feedback(&mut self, primitive_mode: TransformFeedbackMode)
        ensures
            Self::issued(*old(self), *final(self), Call::BeginTransformFeedback { primitive_mode: primitive_mode.spec_code() }),
    {
        let c = Call::BeginTransformFeedback { primitive_mode: primitive_mode.code() };
        self.calls.push(c);
    }

    /// Ends the running transform feedback operation.
    pub fn end_transform_feedback(&mut self)
        ensures
            Self::issued(*old(self), *final(self), Call::EndTransformFeedback),
    {
        let c = Call::EndTransformFeedback;
        self.calls.push(c);
    }

    /// Pauses the running transform feedback operation.
    pub fn pause_transform_feedback(&mut self)
        ensures
            Self::issued(*old(self), *final(self), Call::PauseTransformFeedback),
    {
        let c = Call::PauseTransformFeedback;
        self.calls.push(c);
    }

    /// Resumes a paused transform feedback operation.
    pub fn resume_transform_feedback(&mut self)
        ensures
            Self::issued(*old(self), *final(self), Call::ResumeTransformFeedback),
    {
        let c = Call::ResumeTransformFeedback;
        self.calls.push(c);
    }

    /// Creates the data store of the buffer bound to `target` from 8-bit unsigned elements; the contents are copied to the server side.
    pub fn buffer_data_u8(&mut self, target: BufferKind, src_data: &Vec<u8>, usage: DataHint)
        ensures
            Self::issued_one(*old(self), *final(self)),
            (is_buffer_data_u8(
                final(self).calls@.last(),
                target.spec_code(),
                src_data@,
                usage.spec_code(),
            )),
    {
        let data = src_data.clone();
        proof {
            assert(data@ =~= src_data@);
        }
        let c = Call::BufferDataU8 { target: target.code(), src_data: data, usage: usage.code() };
        self.calls.push(c);
        proof {
            assert(self.calls@.drop_last() =~= old(self).calls@);
        }
    }

    /// Creates the data store of the buffer bound to `target` from 8-bit signed elements; the contents are copied to the server side.
    pub fn buffer_data_i8(&mut self, target: BufferKind, src_data: &Vec<i8>, usage: DataHint)
        ensures
            Self::issued_one(*old(self), *final(self)),
            (is_buffer_data_i8(
                final(self).calls@.last(),
                target.spec_code(),
                src_data@,
                usage.spec_code(),
            )),
    {
        let data = src_data.clone();
        proof {
            assert(data@ =~= src_data@);
        }
        let c = Call::BufferDataI8 { target: target.code(), src_data: data, usage: usage.code() };
        self.calls.push(c);
        proof {
            assert(self.calls@.drop_last() =~= old(self).calls@);
        }
    }

    /// Creates the data store of the buffer bound to `target` from 16-bit unsigned elements; the contents are copied to the server side.
    pub fn buffer_data_u16(&mut self, target: BufferKind, src_data: &Vec<u16>, usage: DataHint)
        ensures
            Self::issued_one(*old(self), *final(self)),
            (is_buffer_data_u16(
                final(self).calls@.last(),
                target.spec_code(),
                src_data@,
                usage.spec_code(),
            )),
    {
        let data = src_data.clone();
        proof {
            assert(data@ =~= src_data@);
        }
        let c = Call::BufferDataU16 { target: target.code(), src_data: data, usage: usage.code() };
        self.calls.push(c);
        proof {
            assert(self.calls@.drop_last() =~= old(self).calls@);
        }
    }

    /// Creates the data store of the buffer bound to `target` from 16-bit signed elements; the contents are copied to the server side.
    pub fn buffer_data_i16(&mut self, target: BufferKind, src_data: &Vec<i16>, usage: DataHint)
        ensures
            Self::issued_one(*old(self), *final(self)),
            (is_buffer_data_i16(
                final(self).calls@.last(),
                target.spec_code(),
                src_data@,
                usage.spec_code(),
            )),
    {
        let data = src_data.clone();
        proof {
            assert(data@ =~= src_data@);
        }
        let c = Call::BufferDataI16 { target: target.code(), src_data: data, usage: usage.code() };
        self.calls.push(c);
        proof {
            assert(self.calls@.drop_last() =~= old(self).calls@);
        }
    }

    /// Creates the data store of the buffer bound to `target` from 32-bit unsigned elements; the contents are copied to the server side.
    pub fn buffer_data_u32(&mut self, target: BufferKind, src_data: &Vec<u32>, usage: DataHint)
        ensures
            Self::issued_one(*old(self), *final(self)),
            (is_buffer_data_u32(
                final(self).calls@.last(),
                target.spec_code(),
                src_data@,
                usage.spec_code(),
            )),
    {
        let data = src_data.clone();
        proof {
            assert(data@ =~= src_data@);
        }
        let c = Call::BufferDataU32 { target: target.code(), src_data: data, usage: usage.code() };
        self.calls.push(c);
        proof {
            assert(self.calls@.drop_last() =~= old(self).calls@);
        }
    }

    /// Creates the data store of the buffer bound to `target` from 32-bit signed elements; the contents are copied to the server side.
    pub fn buffer_data_i32(&mut self, target: BufferKind, src_data: &Vec<i32>, usage: DataHint)
        ensures
            Self::issued_one(*old(self), *final(self)),
            (is_buffer_data_i32(
                final(self).calls@.last(),
                target.spec_code(),
                src_data@,
                usage.spec_code(),
            )),
    {
        let data = src_data.clone();
        proof {
            assert(data@ =~= src_data@);
        }
        let c = Call::BufferDataI32 { target: target.code(), src_data: data, usage: usage.code() };
        self.calls.push(c);
        proof {
            assert(self.calls@.drop_last() =~= old(self).calls@);
        }
    }

    /// Updates a subset of the data store of the buffer bound to `target`.
    pub fn buffer_sub_data(&mut self, target: BufferKind, dst_byte_offset: u32, src_data: &Vec<u8>, src_offset: u32, length: u32)
        ensures
            Self::issued_one(*old(self), *final(self)),
            (is_buffer_sub_data(
                final(self).calls@.last(),
                target.spec_code(),
                dst_byte_offset,
                src_data@,
                src_offset,
                length,
            )),
    {
        let data = src_data.clone();
        proof {
            assert(data@ =~= src_data@);
        }
        let c = Call::BufferSubData { target: target.code(), dst_byte_offset, src_data: data, src_offset, length };
        self.calls.push(c);
        proof {
            assert(self.calls@.drop_last() =~= old(self).calls@);
        }
    }

    /// Asks for data from the buffer bound to `target`; the bytes travel outside this call.
    pub fn get_buffer_sub_data(&mut self, target: BufferKind, src_byte_offset: i64, dst_data: &Vec<u8>, dst_offset: i64, length: u32)
        ensures
            Self::issued_one(*old(self), *final(self)),
            (is_get_buffer_sub_data(
                final(self).calls@.last(),
                target.spec_code(),
                src_byte_offset,
                dst_data@,
                dst_offset,
                length,
            )),
    {
        let data = dst_data.clone();
        proof {
            assert(data@ =~= dst_data@);
        }
        let c = Call::GetBufferSubData { target: target.code(), src_byte_offset, dst_data: data, dst_offset, length };
        self.calls.push(c);
        proof {
            assert(self.calls@.drop_last() =~= old(self).calls@);
        }
    }

    /// Asks for a block of pixels from the current color framebuffer; the bytes travel outside this call.
    pub fn read_pixels(&mut self, x: i32, y: i32, width: u32, height: u32, format: PixelReadFormat, pixel_type: PixelType, pixels: &Vec<u8>, dst_offset: i32)
        ensures
            Self::issued_one(*old(self), *final(self)),
            (is_read_pixels(
                final(self).calls@.last(),
                x,
                y,
                width,
                height,
                format.spec_code(),
                pixel_type.spec_code(),
                pixels@,
                dst_offset,
            )),
    {
        let data = pixels.clone();
        proof {
            assert(data@ =~= pixels@);
        }
        let c = Call::ReadPixels { x, y, width, height, format: format.code(), pixel_type: pixel_type.code(), pixels: data, dst_offset };
        self.calls.push(c);
        proof {
            assert(self.calls@.drop_last() =~= old(self).calls@);
        }
    }

    /// Specifies a two-dimensional texture image from 8-bit unsigned elements.
    pub fn tex_image_2d_u8(&mut self, target: TextureBindPoint, level: u32, internalformat: PixelCopyFormat, width: u32, height: u32, border: u32, format: PixelCopyFormat, pixel_type: PixelType, src_data: &Vec<u8>)
        ensures
            Self::issued_one(*old(self), *final(self)),
            (is_tex_image_2d_u8(
                final(self).calls@.last(),
                target.spec_code(),
                level,
                internalformat.spec_code(),
                width,
                height,
                border,
                format.spec_code(),
                pixel_type.spec_code(),
                src_data@,
            )),
    {
        let data = src_data.clone();
        proof {
            assert(data@ =~= src_data@);
        }
        let c = Call::TexImage2dU8 { target: target.code(), level, internalformat: internalformat.code(), width, height, border, format: format.code(), pixel_type: pixel_type.code(), src_data: data };
        self.calls.push(c);
        proof {
            assert(self.calls@.drop_last() =~= old(self).calls@);
        }
    }

    /// Specifies a two-dimensional texture image from 8-bit signed elements.
    pub fn tex_image_2d_i8(&mut self, target: TextureBindPoint, level: u32, internalformat: PixelCopyFormat, width: u32, height: u32, border: u32, format: PixelCopyFormat, pixel_type: PixelType, src_data: &Vec<i8>)
        ensures
            Self::issued_one(*old(self), *final(self)),
            (is_tex_image_2d_i8(
                final(self).calls@.last(),
                target.spec_code(),
                level,
                internalformat.spec_code(),
                width,
                height,
                border,
                format.spec_code(),
                pixel_type.spec_code(),
                src_data@,
            )),
    {
        let data = src_data.clone();
        proof {
            assert(data@ =~= src_data@);
        }
        let c = Call::TexImage2dI8 { target: target.code(), level, internalformat: internalformat.code(), width, height, border, format: format.code(), pixel_type: pixel_type.code(), src_data: data };
        self.calls.push(c);
        proof {
            assert(self.calls@.drop_last() =~= old(self).calls@);
        }
    }

    /// Specifies a two-dimensional texture image from 16-bit unsigned elements.
    pub fn tex_image_2d_u16(&mut self, target: TextureBindPoint, level: u32, internalformat: PixelCopyFormat, width: u32, height: u32, border: u32, format: PixelCopyFormat, pixel_type: PixelType, src_data: &Vec<u16>)
        ensures
            Self::issued_one(*old(self), *final(self)),
            (is_tex_image_2d_u16(
                final(self).calls@.last(),
                target.spec_code(),
                level,
                internalformat.spec_code(),
                width,
                height,
                border,
                format.spec_code(),
                pixel_type.spec_code(),
                src_data@,
            )),
    {
        let data = src_data.clone();
        proof {
            assert(data@ =~= src_data@);
        }
        let c = Call::TexImage2dU16 { target: target.code(), level, internalformat: internalformat.code(), width, height, border, format: format.code(), pixel_type: pixel_type.code(), src_data: data };
        self.calls.push(c);
        proof {
            assert(self.calls@.drop_last() =~= old(self).calls@);
        }
    }

    /// Specifies a two-dimensional texture image from 16-bit signed elements.
    pub fn tex_image_2d_i16(&mut self, target: TextureBindPoint, level: u32, internalformat: PixelCopyFormat, width: u32, height: u32, border: u32, format: PixelCopyFormat, pixel_type: PixelType, src_data: &Vec<i16>)
        ensures
            Self::issued_one(*old(self), *final(self)),
            (is_tex_image_2d_i16(
                final(self).calls@.last(),
                target.spec_code(),
                level,
                internalformat.spec_code(),
                width,
                height,
                border,
                format.spec_code(),
                pixel_type.spec_code(),
                src_data@,
            )),
    {
        let data = src_data.clone();
        proof {
            assert(data@ =~= src_data@);
        }
        let c = Call::TexImage2dI16 { target: target.code(), level, internalformat: internalformat.code(), width, height, border, format: format.code(), pixel_type: pixel_type.code(), src_data: data };
        self.calls.push(c);
        proof {
            assert(self.calls@.drop_last() =~= old(self).calls@);
        }
    }

    /// Specifies a two-dimensional texture image from 32-bit unsigned elements.
    pub fn tex_image_2d_u32(&mut self, target: TextureBindPoint, level: u32, internalformat: PixelCopyFormat, width: u32, height: u32, border: u32, format: PixelCopyFormat, pixel_type: PixelType, src_data: &Vec<u32>)
        ensures
            Self::issued_one(*old(self), *final(self)),
            (is_tex_image_2d_u32(
                final(self).calls@.last(),
                target.spec_code(),
                level,
                internalformat.spec_code(),
                width,
                height,
                border,
                format.spec_code(),
                pixel_type.spec_code(),
                src_data@,
            )),
    {
        let data = src_data.clone();
        proof {
            assert(data@ =~= src_data@);
        }
        let c = Call::TexImage2dU32 { target: target.code(), level, internalformat: internalformat.code(), width, height, border, format: format.code(), pixel_type: pixel_type.code(), src_data: data };
        self.calls.push(c);
        proof {
            assert(self.calls@.drop_last() =~= old(self).calls@);
        }
    }

    /// Specifies a two-dimensional texture image from 32-bit signed elements.
    pub fn tex_image_2d_i32(&mut self, target: TextureBindPoint, level: u32, internalformat: PixelCopyFormat, width: u32, height: u32, border: u32, format: PixelCopyFormat, pixel_type: PixelType, src_data: &Vec<i32>)
        ensures
            Self::issued_one(*old(self), *final(self)),
            (is_tex_image_2d_i32(
                final(self).calls@.last(),
                target.spec_code(),
                level,
                internalformat.spec_code(),
                width,
                height,
                border,
                format.spec_code(),
                pixel_type.spec_code(),
                src_data@,
            )),
    {
        let data = src_data.clone();
        proof {
            assert(data@ =~= src_data@);
        }
        let c = Call::TexImage2dI32 { target: target.code(), level, internalformat: internalformat.code(), width, height, border, format: format.code(), pixel_type: pixel_type.code(), src_data: data };
        self.calls.push(c);
        proof {
            assert(self.calls@.drop_last() =~= old(self).calls@);
        }
    }

    /// Specifies a three-dimensional texture image.
    pub fn tex_image_3d(&mut self, target: Texture3DKind, level: u32, internalformat: RenderbufferFormat, width: u32, height: u32, depth: u32, border: u32, format: RenderbufferFormat, data_type: RenderbufferFormat, src_data: &Vec<u8>, src_offset: u32)
        ensures
            Self::issued_one(*old(self), *final(self)),
            (is_tex_image_3d(
                final(self).calls@.last(),
                target.spec_code(),
                level,
                internalformat.spec_code(),
                width,
                height,
                depth,
                border,
                format.spec_code(),
                data_type.spec_code(),
                src_data@,
                src_offset,
            )),
    {
        let data = src_data.clone();
        proof {
            assert(data@ =~= src_data@);
        }
        let c = Call::TexImage3d { target: target.code(), level, internalformat: internalformat.code(), width, height, depth, border, format: format.code(), data_type: data_type.code(), src_data: data, src_offset };
        self.calls.push(c);
        proof {
            assert(self.calls@.drop_last() =~= old(self).calls@);
        }
    }

    /// Specifies a sub-rectangle of the current three-dimensional texture.
    pub fn tex_sub_image_3d(&mut self, target: Texture3DKind, level: u32, xoffset: u32, yoffset: u32, zoffset: u32, width: u32, height: u32, depth: u32, format: RenderbufferFormat, data_type: RenderbufferFormat, src_data: &Vec<u8>, src_offset: u32)
        ensures
            Self::issued_one(*old(self), *final(self)),
            (is_tex_sub_image_3d(
                final(self).calls@.last(),
                target.spec_code(),
                level,
                xoffset,
                yoffset,
                zoffset,
                width,
                height,
                depth,
                format.spec_code(),
                data_type.spec_code(),
                src_data@,
                src_offset,
            )),
    {
        let data = src_data.clone();
        proof {
            assert(data@ =~= src_data@);
        }
        let c = Call::TexSubImage3d { target: target.code(), level, xoffset, yoffset, zoffset, width, height, depth, format: format.code(), data_type: data_type.code(), src_data: data, src_offset };
        self.calls.push(c);
        proof {
            assert(self.calls@.drop_last() =~= old(self).calls@);
        }
    }

    /// Specifies the values of a signed integer uniform array, one component per element.
    pub fn uniform_1iv(&mut self, location: &WebGLUniformLocation, value: &Vec<i32>)
        ensures
            Self::issued_one(*old(self), *final(self)),
            (is_uniform_1iv(
                final(self).calls@.last(),
                location.spec_id(),
                value@,
            )),
    {
        let data = value.clone();
        proof {
            assert(data@ =~= value@);
        }
        let c = Call::Uniform1iv { location: location.id(), value: data };
        self.calls.push(c);
        proof {
            assert(self.calls@.drop_last() =~= old(self).calls@);
        }
    }

    /// Specifies the values of a signed integer uniform array, two components per element.
    pub fn uniform_2iv(&mut self, location: &WebGLUniformLocation, value: &Vec<i32>)
        ensures
            Self::issued_one(*old(self), *final(self)),
            (is_uniform_2iv(
                final(self).calls@.last(),
                location.spec_id(),
                value@,
            )),
    {
        let data = value.clone();
        proof {
            assert(data@ =~= value@);
        }
        let c = Call::Uniform2iv { location: location.id(), value: data };
        self.calls.push(c);
        proof {
            assert(self.calls@.drop_last() =~= old(self).calls@);
        }
    }

    /// Specifies the values of a signed integer uniform array, three components per element.
    pub fn uniform_3iv(&mut self, location: &WebGLUniformLocation, value: &Vec<i32>)
        ensures
            Self::issued_one(*old(self), *final(self)),
            (is_uniform_3iv(
                final(self).calls@.last(),
                location.spec_id(),
                value@,
            )),
    {
        let data = value.clone();
        proof {
            assert(data@ =~= value@);
        }
        let c = Call::Uniform3iv { location: location.id(), value: data };
        self.calls.push(c);
        proof {
            assert(self.calls@.drop_last() =~= old(self).calls@);
        }
    }

    /// Specifies the values of a signed integer uniform array, four components per element.
    pub fn uniform_4iv(&mut self, location: &WebGLUniformLocation, value: &Vec<i32>)
        ensures
            Self::issued_one(*old(self), *final(self)),
            (is_uniform_4iv(
                final(self).calls@.last(),
                location.spec_id(),
                value@,
            )),
    {
        let data = value.clone();
        proof {
            assert(data@ =~= value@);
        }
        let c = Call::Uniform4iv { location: location.id(), value: data };
        self.calls.push(c);
        proof {
            assert(self.calls@.drop_last() =~= old(self).calls@);
        }
    }

    /// Specifies the values of an unsigned integer uniform array, one component per element.
    pub fn uniform_1uiv(&mut self, location: &WebGLUniformLocation, value: &Vec<u32>)
        ensures
            Self::issued_one(*old(self), *final(self)),
            (is_uniform_1uiv(
                final(self).calls@.last(),
                location.spec_id(),
                value@,
            )),
    {
        let data = value.clone();
        proof {
            assert(data@ =~= value@);
        }
        let c = Call::Uniform1uiv { location: location.id(), value: data };
        self.calls.push(c);
        proof {
            assert(self.calls@.drop_last() =~= old(self).calls@);
        }
    }

    /// Specifies the values of an unsigned integer uniform array, two components per element.
    pub fn uniform_2uiv(&mut self, location: &WebGLUniformLocation, value: &Vec<u32>)
        ensures
            Self::issued_one(*old(self), *final(self)),
            (is_uniform_2uiv(
                final(self).calls@.last(),
                location.spec_id(),
                value@,
            )),
    {
        let data = value.clone();
        proof {
            assert(data@ =~= value@);
        }
        let c = Call::Uniform2uiv { location: location.id(), value: data };
        self.calls.push(c);
        proof {
            assert(self.calls@.drop_last() =~= old(self).calls@);
        }
    }

    /// Specifies the values of an unsigned integer uniform array, three components per element.
    pub fn uniform_3uiv(&mut self, location: &WebGLUniformLocation, value: &Vec<u32>)
        ensures
            Self::issued_one(*old(self), *final(self)),
            (is_uniform_3uiv(
                final(self).calls@.last(),
                location.spec_id(),
                value@,
            )),
    {
        let data = value.clone();
        proof {
            assert(data@ =~= value@);
        }
        let c = Call::Uniform3uiv { location: location.id(), value: data };
        self.calls.push(c);
        proof {
            assert(self.calls@.drop_last() =~= old(self).calls@);
        }
    }

    /// Specifies the values of an unsigned integer uniform array, four components per element.
    pub fn uniform_4uiv(&mut self, location: &WebGLUniformLocation, value: &Vec<u32>)
        ensures
            Self::issued_one(*old(self), *final(self)),
            (is_uniform_4uiv(
                final(self).calls@.last(),
                location.spec_id(),
                value@,
            )),
    {
        let data = value.clone();
        proof {
            assert(data@ =~= value@);
        }
        let c = Call::Uniform4uiv { location: location.id(), value: data };
        self.calls.push(c);
        proof {
            assert(self.calls@.drop_last() =~= old(self).calls@);
        }
    }

    /// Specifies four signed integer values for a generic vertex attribute from an array.
    pub fn vertex_attrib_i_4iv(&mut self, index: u32, value: &Vec<i32>)
        ensures
            Self::issued_one(*old(self), *final(self)),
            (is_vertex_attrib_i_4iv(
                final(self).calls@.last(),
                index,
                value@,
            )),
    {
        let data = value.clone();
        proof {
            assert(data@ =~= value@);
        }
        let c = Call::VertexAttribI4iv { index, value: data };
        self.calls.push(c);
        proof {
            assert(self.calls@.drop_last() =~= old(self).calls@);
        }
    }

    /// Specifies four unsigned integer values for a generic vertex attribute from an array.
    pub fn vertex_attrib_i_4uiv(&mut self, index: u32, value: &Vec<u32>)
        ensures
            Self::issued_one(*old(self), *final(self)),
            (is_vertex_attrib_i_4uiv(
                final(self).calls@.last(),
                index,
                value@,
            )),
    {
        let data = value.clone();
        proof {
            assert(data@ =~= value@);
        }
        let c = Call::VertexAttribI4uiv { index, value: data };
        self.calls.push(c);
        proof {
            assert(self.calls@.drop_last() =~= old(self).calls@);
        }
    }

    /// Clears a buffer of the bound framebuffer from signed integer values.
    pub fn clear_buffer_iv(&mut self, buffer: BufferBit, drawbuffer: i32, values: &Vec<u8>, src_offset: u32)
        ensures
            Self::issued_one(*old(self), *final(self)),
            (is_clear_buffer_iv(
                final(self).calls@.last(),
                buffer.spec_code(),
                drawbuffer,
                values@,
                src_offset,
            )),
    {
        let data = values.clone();
        proof {
            assert(data@ =~= values@);
        }
        let c = Call::ClearBufferIv { buffer: buffer.code(), drawbuffer, values: data, src_offset };
        self.calls.push(c);
        proof {
            assert(self.calls@.drop_last() =~= old(self).calls@);
        }
    }

    /// Clears a buffer of the bound framebuffer from unsigned integer values.
    pub fn clear_buffer_uiv(&mut self, buffer: BufferBit, drawbuffer: i32, values: &Vec<u8>, src_offset: u32)
        ensures
            Self::issued_one(*old(self), *final(self)),
            (is_clear_buffer_uiv(
                final(self).calls@.last(),
                buffer.spec_code(),
                drawbuffer,
                values@,
                src_offset,
            )),
    {
        let data = values.clone();
        proof {
            assert(data@ =~= values@);
        }
        let c = Call::ClearBufferUiv { buffer: buffer.code(), drawbuffer, values: data, src_offset };
        self.calls.push(c);
        proof {
            assert(self.calls@.drop_last() =~= old(self).calls@);
        }
    }

    /// Asks whether the rendering context has been lost.
    /// Returns nothing when no reply is in store or the reply has the wrong shape.
    pub fn is_context_lost(&mut self) -> (r: Option<bool>)
        ensures
            Self::queried(*old(self), *final(self), Call::IsContextLost),
            r == (match Self::taken_reply(*old(self)) {
                Some(Reply::Boolean(b)) => Some(b),
                _ => None::<bool>,
            }),
    {
        let c = Call::IsContextLost;
        self.calls.push(c);
        let rep = self.take_reply();
        match rep {
            Some(Reply::Boolean(b)) => Some(b),
            _ => None,
        }
    }

    /// Reads the actual width of the current drawing buffer.
    /// Returns nothing when no reply is in store or the reply has the wrong shape.
    pub fn drawing_buffer_width(&mut self) -> (r: Option<u32>)
        ensures
            Self::queried(*old(self), *final(self), Call::DrawingBufferWidth),
            r == (match Self::taken_reply(*old(self)) {
                Some(Reply::Uint(x)) => Some(x),
                _ => None::<u32>,
            }),
    {
        let c = Call::DrawingBufferWidth;
        self.calls.push(c);
        let rep = self.take_reply();
        match rep {
            Some(Reply::Uint(x)) => Some(x),
            _ => None,
        }
    }

    /// Reads the actual height of the current drawing buffer.
    /// Returns nothing when no reply is in store or the reply has the wrong shape.
    pub fn drawing_buffer_height(&mut self) -> (r: Option<u32>)
        ensures
            Self::queried(*old(self), *final(self), Call::DrawingBufferHeight),
            r == (match Self::taken_reply(*old(self)) {
                Some(Reply::Uint(x)) => Some(x),
                _ => None::<u32>,
            }),
    {
        let c = Call::DrawingBufferHeight;
        self.calls.push(c);
        let rep = self.take_reply();
        match rep {
            Some(Reply::Uint(x)) => Some(x),
            _ => None,
        }
    }

    /// Returns the error condition the external API has recorded, if any; errors are only observable through this poll, never at the call that caused them.
    /// Returns nothing when no reply is in store or the reply has the wrong shape.
    pub fn get_error(&mut self) -> (r: Option<Error>)
        ensures
            Self::queried(*old(self), *final(self), Call::GetError),
            r == (match Self::taken_reply(*old(self)) {
                Some(Reply::Uint(c)) => Error::spec_from_code(c),
                _ => None::<Error>,
            }),
    {
        let c = Call::GetError;
        self.calls.push(c);
        let rep = self.take_reply();
        match rep {
            Some(Reply::Uint(c)) => Error::from_code(c),
            _ => None,
        }
    }

    /// The generic buffer query: returns the raw value of the named buffer property.
    /// Returns nothing when no reply is in store or the reply has the wrong shape.
    pub fn get_buffer_parameter(&mut self, target: BufferKind, pname: BufferParameter) -> (r: Option<Reply>)
        ensures
            Self::queried(*old(self), *final(self), Call::GetBufferParameter { target: target.spec_code(), pname: pname.spec_code() }),
            r == Self::taken_reply(*old(self)),
    {
        let c = Call::GetBufferParameter { target: target.code(), pname: pname.code() };
        self.calls.push(c);
        self.take_reply()
    }

    /// The generic renderbuffer query: returns the raw value of the named renderbuffer property.
    /// Returns nothing when no reply is in store or the reply has the wrong shape.
    pub fn get_renderbuffer_parameter(&mut self, target: RenderbufferKind, pname: RenderbufferParameter) -> (r: Option<Reply>)
        ensures
            Self::queried(*old(self), *final(self), Call::GetRenderbufferParameter { target: target.spec_code(), pname: pname.spec_code() }),
            r == Self::taken_reply(*old(self)),
    {
        let c = Call::GetRenderbufferParameter { target: target.code(), pname: pname.code() };
        self.calls.push(c);
        self.take_reply()
    }

    /// The generic query-object query: returns the raw value of the named query property.
    /// Returns nothing when no reply is in store or the reply has the wrong shape.
    pub fn get_query_parameter(&mut self, query: &WebGLQuery, pname: QueryParameter) -> (r: Option<Reply>)
        ensures
            Self::queried(*old(self), *final(self), Call::GetQueryParameter { query: query.spec_id(), pname: pname.spec_code() }),
            r == Self::taken_reply(*old(self)),
    {
        let c = Call::GetQueryParameter { query: query.id(), pname: pname.code() };
        self.calls.push(c);
        self.take_reply()
    }

    /// Reads the address of a vertex attribute array.
    /// Returns nothing when no reply is in store or the reply has the wrong shape.
    pub fn get_vertex_attrib_offset(&mut self, index: u32, pname: VertexAttrib) -> (r: Option<i64>)
        ensures
            Self::queried(*old(self), *final(self), Call::GetVertexAttribOffset { index, pname: pname.spec_code() }),
            r == (match Self::taken_reply(*old(self)) {
                Some(Reply::Long(x)) => Some(x),
                _ => None::<i64>,
            }),
    {
        let c = Call::GetVertexAttribOffset { index, pname: pname.code() };
        self.calls.push(c);
        let rep = self.take_reply();
        match rep {
            Some(Reply::Long(x)) => Some(x),
            _ => None,
        }
    }

    /// Reads implementation-dependent support information for an internal format.
    /// Returns nothing when no reply is in store or the reply has the wrong shape.
    pub fn get_internal_format_parameter(&mut self, target: RenderbufferKind, internal_format: RenderbufferFormat, pname: InformationType) -> (r: Option<Vec<i32>>)
        ensures
            Self::queried(*old(self), *final(self), Call::GetInternalFormatParameter { target: target.spec_code(), internal_format: internal_format.spec_code(), pname: pname.spec_code() }),
            r == (match Self::taken_reply(*old(self)) {
                Some(Reply::IntArray(a)) => Some(a),
                _ => None::<Vec<i32>>,
            }),
    {
        let c = Call::GetInternalFormatParameter { target: target.code(), internal_format: internal_format.code(), pname: pname.code() };
        self.calls.push(c);
        let rep = self.take_reply();
        match rep {
            Some(Reply::IntArray(a)) => Some(a),
            _ => None,
        }
    }

    /// Reads the range and precision of the given shader numeric format.
    /// Returns nothing when no reply is in store or the reply has the wrong shape.
    pub fn get_shader_precision_format(&mut self, shader_type: ShaderKind, precision_type: ShaderPrecision) -> (r: Option<WebGLShaderPrecisionFormat>)
        ensures
            Self::queried(*old(self), *final(self), Call::GetShaderPrecisionFormat { shader_type: shader_type.spec_code(), precision_type: precision_type.spec_code() }),
            (match Self::taken_reply(*old(self)) {
                Some(Reply::Precision { range_min, range_max, precision }) => r matches Some(f)
                    && f.spec_range_min() == range_min
                    && f.spec_range_max() == range_max
                    && f.spec_precision() == precision,
                _ => r is None,
            }),
    {
        let c = Call::GetShaderPrecisionFormat { shader_type: shader_type.code(), precision_type: precision_type.code() };
        self.calls.push(c);
        let rep = self.take_reply();
        match rep {
            Some(Reply::Precision { range_min, range_max, precision }) => Some(
                WebGLShaderPrecisionFormat::from_raw(range_min, range_max, precision),
            ),
            _ => None,
        }
    }

    /// Returns the query object currently active for the target, if any.
    /// Returns nothing when no reply is in store or the reply has the wrong shape.
    pub fn get_query(&mut self, target: QueryTarget, pname: Query) -> (r: Option<WebGLQuery>)
        ensures
            Self::queried(*old(self), *final(self), Call::GetQuery { target: target.spec_code(), pname: pname.spec_code() }),
            (match Self::taken_reply(*old(self)) {
                Some(Reply::Handle(id)) => r matches Some(q) && q.spec_id() == id,
                _ => r is None,
            }),
    {
        let c = Call::GetQuery { target: target.code(), pname: pname.code() };
        self.calls.push(c);
        let rep = self.take_reply();
        match rep {
            Some(Reply::Handle(id)) => Some(WebGLQuery::from_raw(id)),
            _ => None,
        }
    }

    /// Blocks until the sync object is signaled or the timeout has passed, and reports which of the four outcomes held.
    /// Returns nothing when no reply is in store or the reply has the wrong shape.
    pub fn client_wait_sync(&mut self, sync: &WebGLSync, flags: u32, timeout: i64) -> (r: Option<WaitStatus>)
        ensures
            Self::queried(*old(self), *final(self), Call::ClientWaitSync { sync: sync.spec_id(), flags, timeout }),
            r == (match Self::taken_reply(*old(self)) {
                Some(Reply::Uint(c)) => WaitStatus::spec_from_code(c),
                _ => None::<WaitStatus>,
            }),
    {
        let c = Call::ClientWaitSync { sync: sync.id(), flags, timeout };
        self.calls.push(c);
        let rep = self.take_reply();
        match rep {
            Some(Reply::Uint(c)) => WaitStatus::from_code(c),
            _ => None,
        }
    }

    /// Asks whether the handle names a valid sync object.
    /// Returns nothing when no reply is in store or the reply has the wrong shape.
    pub fn is_sync(&mut self, sync: &WebGLSync) -> (r: Option<bool>)
        ensures
            Self::queried(*old(self), *final(self), Call::IsSync { sync: sync.spec_id() }),
            r == (match Self::taken_reply(*old(self)) {
                Some(Reply::Boolean(b)) => Some(b),
                _ => None::<bool>,
            }),
    {
        let c = Call::IsSync { sync: sync.id() };
        self.calls.push(c);
        let rep = self.take_reply();
        match rep {
            Some(Reply::Boolean(b)) => Some(b),
            _ => None,
        }
    }

    /// Asks whether the handle names a valid transform feedback object.
    /// Returns nothing when no reply is in store or the reply has the wrong shape.
    pub fn is_transform_feedback(&mut self, transform_feedback: &WebGLTransformFeedback) -> (r: Option<bool>)
        ensures
            Self::queried(*old(self), *final(self), Call::IsTransformFeedback { transform_feedback: transform_feedback.spec_id() }),
            r == (match Self::taken_reply(*old(self)) {
                Some(Reply::Boolean(b)) => Some(b),
                _ => None::<bool>,
            }),
    {
        let c = Call::IsTransformFeedback { transform_feedback: transform_feedback.id() };
        self.calls.push(c);
        let rep = self.take_reply();
        match rep {
            Some(Reply::Boolean(b)) => Some(b),
            _ => None,
        }
    }

    /// Creates a query object for asynchronous information queries.
    pub fn create_query(&mut self) -> (h: WebGLQuery)
        requires
            old(self).next_handle < u64::MAX,
        ensures
            Self::created(*old(self), *final(self), Call::CreateQuery { id: old(self).next_handle }),
            h.spec_id() == old(self).next_handle,
    {
        let id = self.next_handle;
        self.next_handle = self.next_handle + 1;
        self.calls.push(Call::CreateQuery { id });
        WebGLQuery::from_raw(id)
    }

    /// Creates a sampler object.
    pub fn create_sampler(&mut self) -> (h: WebGLSampler)
        requires
            old(self).next_handle < u64::MAX,
        ensures
            Self::created(*old(self), *final(self), Call::CreateSampler { id: old(self).next_handle }),
            h.spec_id() == old(self).next_handle,
    {
        let id = self.next_handle;
        self.next_handle = self.next_handle + 1;
        self.calls.push(Call::CreateSampler { id });
        WebGLSampler::from_raw(id)
    }

    /// Creates a sync object and inserts it into the command stream.
    pub fn fence_sync(&mut self, conditions: GPUState, flags: u32) -> (h: WebGLSync)
        requires
            old(self).next_handle < u64::MAX,
        ensures
            Self::created(*old(self), *final(self), Call::FenceSync { conditions: conditions.spec_code(), flags, id: old(self).next_handle }),
            h.spec_id() == old(self).next_handle,
    {
        let id = self.next_handle;
        self.next_handle = self.next_handle + 1;
        self.calls.push(Call::FenceSync { conditions: conditions.code(), flags, id });
        WebGLSync::from_raw(id)
    }

    /// Creates a transform feedback object.
    pub fn create_transform_feedback(&mut self) -> (h: WebGLTransformFeedback)
        requires
            old(self).next_handle < u64::MAX,
        ensures
            Self::created(*old(self), *final(self), Call::CreateTransformFeedback { id: old(self).next_handle }),
            h.spec_id() == old(self).next_handle,
    {
        let id = self.next_handle;
        self.next_handle = self.next_handle + 1;
        self.calls.push(Call::CreateTransformFeedback { id });
        WebGLTransformFeedback::from_raw(id)
    }

    /// The size of the buffer bound to `target`, queried through the
    /// generic buffer query with the parameter name fixed to the size
    /// constant.
    /// Returns nothing when no reply is in store or the reply has the wrong shape.
    pub fn get_buffer_size(&mut self, target: BufferKind) -> (r: Option<i32>)
        ensures
            Self::queried(
                *old(self),
                *final(self),
                Call::GetBufferParameter {
                    target: target.spec_code(),
                    pname: BufferParameter::Size.spec_code(),
                },
            ),
            r == (match Self::taken_reply(*old(self)) {
                Some(Reply::Int(x)) => Some(x),
                _ => None::<i32>,
            }),
    {
        let raw = self.get_buffer_parameter(target, BufferParameter::Size);
        match raw {
            Some(Reply::Int(x)) => Some(x),
            _ => None,
        }
    }

    /// The usage hint the buffer bound to `target` was created with, queried
    /// through the generic buffer query with the parameter name fixed to the
    /// usage constant and the result narrowed to the usage enumeration,
    /// never handed out as a raw integer.
    /// Returns nothing when no reply is in store or the reply has the wrong shape.
    pub fn get_buffer_usage(&mut self, target: BufferKind) -> (r: Option<DataHint>)
        ensures
            Self::queried(
                *old(self),
                *final(self),
                Call::GetBufferParameter {
                    target: target.spec_code(),
                    pname: BufferParameter::Usage.spec_code(),
                },
            ),
            r == (match Self::taken_reply(*old(self)) {
                Some(Reply::Uint(c)) => DataHint::spec_from_code(c),
                _ => None::<DataHint>,
            }),
    {
        let raw = self.get_buffer_parameter(target, BufferParameter::Usage);
        match raw {
            Some(Reply::Uint(c)) => DataHint::from_code(c),
            _ => None,
        }
    }

    /// The internal format of the renderbuffer bound to `target`, queried
    /// through the generic renderbuffer query with the parameter name fixed
    /// to the format constant and the result narrowed to the format
    /// enumeration.
    /// Returns nothing when no reply is in store or the reply has the wrong shape.
    pub fn get_renderbuffer_format(&mut self, target: RenderbufferKind) -> (r: Option<
        RenderbufferFormat,
    >)
        ensures
            Self::queried(
                *old(self),
                *final(self),
                Call::GetRenderbufferParameter {
                    target: target.spec_code(),
                    pname: RenderbufferParameter::Format.spec_code(),
                },
            ),
            r == (match Self::taken_reply(*old(self)) {
                Some(Reply::Uint(c)) => RenderbufferFormat::spec_from_code(c),
                _ => None::<RenderbufferFormat>,
            }),
    {
        let raw = self.get_renderbuffer_parameter(target, RenderbufferParameter::Format);
        match raw {
            Some(Reply::Uint(c)) => RenderbufferFormat::from_code(c),
            _ => None,
        }
    }

    /// Whether the result of the query object is available, queried through
    /// the generic query-object query with the parameter name fixed to the
    /// result-available constant; the host polls this until it answers true.
    /// Returns nothing when no reply is in store or the reply has the wrong shape.
    pub fn get_query_status(&mut self, query: &WebGLQuery) -> (r: Option<bool>)
        ensures
            Self::queried(
                *old(self),
                *final(self),
                Call::GetQueryParameter {
                    query: query.spec_id(),
                    pname: QueryParameter::ResultAvailable.spec_code(),
                },
            ),
            r == (match Self::taken_reply(*old(self)) {
                Some(Reply::Boolean(b)) => Some(b),
                _ => None::<bool>,
            }),
    {
        let raw = self.get_query_parameter(query, QueryParameter::ResultAvailable);
        match raw {
            Some(Reply::Boolean(b)) => Some(b),
            _ => None,
        }
    }

    /// The result of the query object, queried through the generic
    /// query-object query with the parameter name fixed to the result
    /// constant; meaningful once `get_query_status` has answered true.
    /// Returns nothing when no reply is in store or the reply has the wrong shape.
    pub fn get_query_result(&mut self, query: &WebGLQuery) -> (r: Option<u32>)
        ensures
            Self::queried(
                *old(self),
                *final(self),
                Call::GetQueryParameter {
                    query: query.spec_id(),
                    pname: QueryParameter::Result.spec_code(),
                },
            ),
            r == (match Self::taken_reply(*old(self)) {
                Some(Reply::Uint(x)) => Some(x),
                _ => None::<u32>,
            }),
    {
        let raw = self.get_query_parameter(query, QueryParameter::Result);
        match raw {
            Some(Reply::Uint(x)) => Some(x),
            _ => None,
        }
    }
}

} // verus!
