//! Capability-based upload dispatch over the element type.
//!
//! A host buffer of any supported numeric element type can be handed to one
//! generic upload operation; the static element type alone selects the
//! type-specific raw entry point on the context, and the element sequence
//! reaches the wire verbatim, with no conversion of element values.  Each
//! capability carries a specification of the call its upload issues, and a
//! lemma per element type states that this is exactly the call of the
//! matching raw entry point — for images with the border argument fixed to
//! zero, the only value the underlying API supports.

use vstd::prelude::*;

use crate::call::Call;
use crate::call::is_buffer_data_u8;
use crate::call::is_buffer_data_i8;
use crate::call::is_buffer_data_u16;
use crate::call::is_buffer_data_i16;
use crate::call::is_buffer_data_u32;
use crate::call::is_buffer_data_i32;
use crate::call::is_tex_image_2d_u8;
use crate::call::is_tex_image_2d_i8;
use crate::call::is_tex_image_2d_u16;
use crate::call::is_tex_image_2d_i16;
use crate::call::is_tex_image_2d_u32;
use crate::call::is_tex_image_2d_i32;
use crate::glenum::BufferKind;
use crate::glenum::DataHint;
use crate::glenum::PixelCopyFormat;
use crate::glenum::PixelType;
use crate::glenum::TextureBindPoint;
use crate::handles::BindingError;
use crate::rendering_context::WebGL2RenderingContext;

verus! {

/// Host data that can be uploaded as the data store of a buffer object.
pub trait Buffer {
    /// `c` is the call this data's upload issues for `target` and `usage`.
    spec fn describes_buffer_call(&self, c: Call, target: BufferKind, usage: DataHint) -> bool;

    /// Uploads this data to the buffer bound to `target`, routing through
    /// the raw entry point of the element type; the contents are copied to
    /// the server side.
    fn buffer_data(
        &self,
        context: &mut WebGL2RenderingContext,
        target: BufferKind,
        usage: DataHint,
    )
        ensures
            WebGL2RenderingContext::issued_one(*old(context), *final(context)),
            self.describes_buffer_call(final(context).calls@.last(), target, usage),
    ;
}

/// Host data that can be uploaded as a two-dimensional texture image.
pub trait Image {
    /// `c` is the call this data's upload issues for these arguments.
    spec fn describes_image_call(
        &self,
        c: Call,
        target: TextureBindPoint,
        level: u32,
        internalformat: PixelCopyFormat,
        width: u32,
        height: u32,
        format: PixelCopyFormat,
        pixel_type: PixelType,
    ) -> bool;

    /// Uploads this data as a 2D texture image, routing through the raw
    /// entry point of the element type with the border argument fixed to
    /// zero; the contents are copied to the server side.
    fn tex_image_2d(
        &self,
        context: &mut WebGL2RenderingContext,
        target: TextureBindPoint,
        level: u32,
        internalformat: PixelCopyFormat,
        width: u32,
        height: u32,
        format: PixelCopyFormat,
        pixel_type: PixelType,
    ) -> (r: Result<(), BindingError>)
        ensures
            WebGL2RenderingContext::issued_one(*old(context), *final(context)),
            self.describes_image_call(
                final(context).calls@.last(),
                target,
                level,
                internalformat,
                width,
                height,
                format,
                pixel_type,
            ),
            r is Ok,
    ;
}

impl Buffer for Vec<u8> {
    open spec fn describes_buffer_call(&self, c: Call, target: BufferKind, usage: DataHint) -> bool {
        is_buffer_data_u8(c, target.spec_code(), self@, usage.spec_code())
    }

    fn buffer_data(
        &self,
        context: &mut WebGL2RenderingContext,
        target: BufferKind,
        usage: DataHint,
    ) {
        context.buffer_data_u8(target, self, usage);
    }
}

impl Image for Vec<u8> {
    open spec fn describes_image_call(
        &self,
        c: Call,
        target: TextureBindPoint,
        level: u32,
        internalformat: PixelCopyFormat,
        width: u32,
        height: u32,
        format: PixelCopyFormat,
        pixel_type: PixelType,
    ) -> bool {
        is_tex_image_2d_u8(
            c,
            target.spec_code(),
            level,
            internalformat.spec_code(),
            width,
            height,
            0,
            format.spec_code(),
            pixel_type.spec_code(),
            self@,
        )
    }

    fn tex_image_2d(
        &self,
        context: &mut WebGL2RenderingContext,
        target: TextureBindPoint,
        level: u32,
        internalformat: PixelCopyFormat,
        width: u32,
        height: u32,
        format: PixelCopyFormat,
        pixel_type: PixelType,
    ) -> (r: Result<(), BindingError>) {
        context.tex_image_2d_u8(
            target,
            level,
            internalformat,
            width,
            height,
            0,
            format,
            pixel_type,
            self,
        );
        Ok(())
    }
}

/// Generic buffer dispatch adds nothing and loses nothing: for 8-bit unsigned
/// elements, the call the `Buffer` capability describes is exactly the call
/// of the raw entry point for that element type, with the element sequence
/// verbatim.
pub proof fn lemma_buffer_dispatch_is_raw_u8(
    v: Vec<u8>,
    c: Call,
    target: BufferKind,
    usage: DataHint,
)
    ensures
        v.describes_buffer_call(c, target, usage) <==> is_buffer_data_u8(
            c,
            target.spec_code(),
            v@,
            usage.spec_code(),
        ),
{
}

/// Generic image dispatch adds nothing and loses nothing: for 8-bit unsigned
/// elements, the call the `Image` capability describes is exactly the call
/// of the raw entry point for that element type, with the element sequence
/// verbatim and the border argument fixed to zero.
pub proof fn lemma_image_dispatch_is_raw_u8(
    v: Vec<u8>,
    c: Call,
    target: TextureBindPoint,
    level: u32,
    internalformat: PixelCopyFormat,
    width: u32,
    height: u32,
    format: PixelCopyFormat,
    pixel_type: PixelType,
)
    ensures
        v.describes_image_call(c, target, level, internalformat, width, height, format, pixel_type)
            <==> is_tex_image_2d_u8(
            c,
            target.spec_code(),
            level,
            internalformat.spec_code(),
            width,
            height,
            0,
            format.spec_code(),
            pixel_type.spec_code(),
            v@,
        ),
{
}

impl Buffer for Vec<i8> {
    open spec fn describes_buffer_call(&self, c: Call, target: BufferKind, usage: DataHint) -> bool {
        is_buffer_data_i8(c, target.spec_code(), self@, usage.spec_code())
    }

    fn buffer_data(
        &self,
        context: &mut WebGL2RenderingContext,
        target: BufferKind,
        usage: DataHint,
    ) {
        context.buffer_data_i8(target, self, usage);
    }
}

impl Image for Vec<i8> {
    open spec fn describes_image_call(
        &self,
        c: Call,
        target: TextureBindPoint,
        level: u32,
        internalformat: PixelCopyFormat,
        width: u32,
        height: u32,
        format: PixelCopyFormat,
        pixel_type: PixelType,
    ) -> bool {
        is_tex_image_2d_i8(
            c,
            target.spec_code(),
            level,
            internalformat.spec_code(),
            width,
            height,
            0,
            format.spec_code(),
            pixel_type.spec_code(),
            self@,
        )
    }

    fn tex_image_2d(
        &self,
        context: &mut WebGL2RenderingContext,
        target: TextureBindPoint,
        level: u32,
        internalformat: PixelCopyFormat,
        width: u32,
        height: u32,
        format: PixelCopyFormat,
        pixel_type: PixelType,
    ) -> (r: Result<(), BindingError>) {
        context.tex_image_2d_i8(
            target,
            level,
            internalformat,
            width,
            height,
            0,
            format,
            pixel_type,
            self,
        );
        Ok(())
    }
}

/// Generic buffer dispatch adds nothing and loses nothing: for 8-bit signed
/// elements, the call the `Buffer` capability describes is exactly the call
/// of the raw entry point for that element type, with the element sequence
/// verbatim.
pub proof fn lemma_buffer_dispatch_is_raw_i8(
    v: Vec<i8>,
    c: Call,
    target: BufferKind,
    usage: DataHint,
)
    ensures
        v.describes_buffer_call(c, target, usage) <==> is_buffer_data_i8(
            c,
            target.spec_code(),
            v@,
            usage.spec_code(),
        ),
{
}

/// Generic image dispatch adds nothing and loses nothing: for 8-bit signed
/// elements, the call the `Image` capability describes is exactly the call
/// of the raw entry point for that element type, with the element sequence
/// verbatim and the border argument fixed to zero.
pub proof fn lemma_image_dispatch_is_raw_i8(
    v: Vec<i8>,
    c: Call,
    target: TextureBindPoint,
    level: u32,
    internalformat: PixelCopyFormat,
    width: u32,
    height: u32,
    format: PixelCopyFormat,
    pixel_type: PixelType,
)
    ensures
        v.describes_image_call(c, target, level, internalformat, width, height, format, pixel_type)
            <==> is_tex_image_2d_i8(
            c,
            target.spec_code(),
            level,
            internalformat.spec_code(),
            width,
            height,
            0,
            format.spec_code(),
            pixel_type.spec_code(),
            v@,
        ),
{
}

impl Buffer for Vec<u16> {
    open spec fn describes_buffer_call(&self, c: Call, target: BufferKind, usage: DataHint) -> bool {
        is_buffer_data_u16(c, target.spec_code(), self@, usage.spec_code())
    }

    fn buffer_data(
        &self,
        context: &mut WebGL2RenderingContext,
        target: BufferKind,
        usage: DataHint,
    ) {
        context.buffer_data_u16(target, self, usage);
    }
}

impl Image for Vec<u16> {
    open spec fn describes_image_call(
        &self,
        c: Call,
        target: TextureBindPoint,
        level: u32,
        internalformat: PixelCopyFormat,
        width: u32,
        height: u32,
        format: PixelCopyFormat,
        pixel_type: PixelType,
    ) -> bool {
        is_tex_image_2d_u16(
            c,
            target.spec_code(),
            level,
            internalformat.spec_code(),
            width,
            height,
            0,
            format.spec_code(),
            pixel_type.spec_code(),
            self@,
        )
    }

    fn tex_image_2d(
        &self,
        context: &mut WebGL2RenderingContext,
        target: TextureBindPoint,
        level: u32,
        internalformat: PixelCopyFormat,
        width: u32,
        height: u32,
        format: PixelCopyFormat,
        pixel_type: PixelType,
    ) -> (r: Result<(), BindingError>) {
        context.tex_image_2d_u16(
            target,
            level,
            internalformat,
            width,
            height,
            0,
            format,
            pixel_type,
            self,
        );
        Ok(())
    }
}

/// Generic buffer dispatch adds nothing and loses nothing: for 16-bit unsigned
/// elements, the call the `Buffer` capability describes is exactly the call
/// of the raw entry point for that element type, with the element sequence
/// verbatim.
pub proof fn lemma_buffer_dispatch_is_raw_u16(
    v: Vec<u16>,
    c: Call,
    target: BufferKind,
    usage: DataHint,
)
    ensures
        v.describes_buffer_call(c, target, usage) <==> is_buffer_data_u16(
            c,
            target.spec_code(),
            v@,
            usage.spec_code(),
        ),
{
}

/// Generic image dispatch adds nothing and loses nothing: for 16-bit unsigned
/// elements, the call the `Image` capability describes is exactly the call
/// of the raw entry point for that element type, with the element sequence
/// verbatim and the border argument fixed to zero.
pub proof fn lemma_image_dispatch_is_raw_u16(
    v: Vec<u16>,
    c: Call,
    target: TextureBindPoint,
    level: u32,
    internalformat: PixelCopyFormat,
    width: u32,
    height: u32,
    format: PixelCopyFormat,
    pixel_type: PixelType,
)
    ensures
        v.describes_image_call(c, target, level, internalformat, width, height, format, pixel_type)
            <==> is_tex_image_2d_u16(
            c,
            target.spec_code(),
            level,
            internalformat.spec_code(),
            width,
            height,
            0,
            format.spec_code(),
            pixel_type.spec_code(),
            v@,
        ),
{
}

impl Buffer for Vec<i16> {
    open spec fn describes_buffer_call(&self, c: Call, target: BufferKind, usage: DataHint) -> bool {
        is_buffer_data_i16(c, target.spec_code(), self@, usage.spec_code())
    }

    fn buffer_data(
        &self,
        context: &mut WebGL2RenderingContext,
        target: BufferKind,
        usage: DataHint,
    ) {
        context.buffer_data_i16(target, self, usage);
    }
}

impl Image for Vec<i16> {
    open spec fn describes_image_call(
        &self,
        c: Call,
        target: TextureBindPoint,
        level: u32,
        internalformat: PixelCopyFormat,
        width: u32,
        height: u32,
        format: PixelCopyFormat,
        pixel_type: PixelType,
    ) -> bool {
        is_tex_image_2d_i16(
            c,
            target.spec_code(),
            level,
            internalformat.spec_code(),
            width,
            height,
            0,
            format.spec_code(),
            pixel_type.spec_code(),
            self@,
        )
    }

    fn tex_image_2d(
        &self,
        context: &mut WebGL2RenderingContext,
        target: TextureBindPoint,
        level: u32,
        internalformat: PixelCopyFormat,
        width: u32,
        height: u32,
        format: PixelCopyFormat,
        pixel_type: PixelType,
    ) -> (r: Result<(), BindingError>) {
        context.tex_image_2d_i16(
            target,
            level,
            internalformat,
            width,
            height,
            0,
            format,
            pixel_type,
            self,
        );
        Ok(())
    }
}

/// Generic buffer dispatch adds nothing and loses nothing: for 16-bit signed
/// elements, the call the `Buffer` capability describes is exactly the call
/// of the raw entry point for that element type, with the element sequence
/// verbatim.
pub proof fn lemma_buffer_dispatch_is_raw_i16(
    v: Vec<i16>,
    c: Call,
    target: BufferKind,
    usage: DataHint,
)
    ensures
        v.describes_buffer_call(c, target, usage) <==> is_buffer_data_i16(
            c,
            target.spec_code(),
            v@,
            usage.spec_code(),
        ),
{
}

/// Generic image dispatch adds nothing and loses nothing: for 16-bit signed
/// elements, the call the `Image` capability describes is exactly the call
/// of the raw entry point for that element type, with the element sequence
/// verbatim and the border argument fixed to zero.
pub proof fn lemma_image_dispatch_is_raw_i16(
    v: Vec<i16>,
    c: Call,
    target: TextureBindPoint,
    level: u32,
    internalformat: PixelCopyFormat,
    width: u32,
    height: u32,
    format: PixelCopyFormat,
    pixel_type: PixelType,
)
    ensures
        v.describes_image_call(c, target, level, internalformat, width, height, format, pixel_type)
            <==> is_tex_image_2d_i16(
            c,
            target.spec_code(),
            level,
            internalformat.spec_code(),
            width,
            height,
            0,
            format.spec_code(),
            pixel_type.spec_code(),
            v@,
        ),
{
}

impl Buffer for Vec<u32> {
    open spec fn describes_buffer_call(&self, c: Call, target: BufferKind, usage: DataHint) -> bool {
        is_buffer_data_u32(c, target.spec_code(), self@, usage.spec_code())
    }

    fn buffer_data(
        &self,
        context: &mut WebGL2RenderingContext,
        target: BufferKind,
        usage: DataHint,
    ) {
        context.buffer_data_u32(target, self, usage);
    }
}

impl Image for Vec<u32> {
    open spec fn describes_image_call(
        &self,
        c: Call,
        target: TextureBindPoint,
        level: u32,
        internalformat: PixelCopyFormat,
        width: u32,
        height: u32,
        format: PixelCopyFormat,
        pixel_type: PixelType,
    ) -> bool {
        is_tex_image_2d_u32(
            c,
            target.spec_code(),
            level,
            internalformat.spec_code(),
            width,
            height,
            0,
            format.spec_code(),
            pixel_type.spec_code(),
            self@,
        )
    }

    fn tex_image_2d(
        &self,
        context: &mut WebGL2RenderingContext,
        target: TextureBindPoint,
        level: u32,
        internalformat: PixelCopyFormat,
        width: u32,
        height: u32,
        format: PixelCopyFormat,
        pixel_type: PixelType,
    ) -> (r: Result<(), BindingError>) {
        context.tex_image_2d_u32(
            target,
            level,
            internalformat,
            width,
            height,
            0,
            format,
            pixel_type,
            self,
        );
        Ok(())
    }
}

/// Generic buffer dispatch adds nothing and loses nothing: for 32-bit unsigned
/// elements, the call the `Buffer` capability describes is exactly the call
/// of the raw entry point for that element type, with the element sequence
/// verbatim.
pub proof fn lemma_buffer_dispatch_is_raw_u32(
    v: Vec<u32>,
    c: Call,
    target: BufferKind,
    usage: DataHint,
)
    ensures
        v.describes_buffer_call(c, target, usage) <==> is_buffer_data_u32(
            c,
            target.spec_code(),
            v@,
            usage.spec_code(),
        ),
{
}

/// Generic image dispatch adds nothing and loses nothing: for 32-bit unsigned
/// elements, the call the `Image` capability describes is exactly the call
/// of the raw entry point for that element type, with the element sequence
/// verbatim and the border argument fixed to zero.
pub proof fn lemma_image_dispatch_is_raw_u32(
    v: Vec<u32>,
    c: Call,
    target: TextureBindPoint,
    level: u32,
    internalformat: PixelCopyFormat,
    width: u32,
    height: u32,
    format: PixelCopyFormat,
    pixel_type: PixelType,
)
    ensures
        v.describes_image_call(c, target, level, internalformat, width, height, format, pixel_type)
            <==> is_tex_image_2d_u32(
            c,
            target.spec_code(),
            level,
            internalformat.spec_code(),
            width,
            height,
            0,
            format.spec_code(),
            pixel_type.spec_code(),
            v@,
        ),
{
}

impl Buffer for Vec<i32> {
    open spec fn describes_buffer_call(&self, c: Call, target: BufferKind, usage: DataHint) -> bool {
        is_buffer_data_i32(c, target.spec_code(), self@, usage.spec_code())
    }

    fn buffer_data(
        &self,
        context: &mut WebGL2RenderingContext,
        target: BufferKind,
        usage: DataHint,
    ) {
        context.buffer_data_i32(target, self, usage);
    }
}

impl Image for Vec<i32> {
    open spec fn describes_image_call(
        &self,
        c: Call,
        target: TextureBindPoint,
        level: u32,
        internalformat: PixelCopyFormat,
        width: u32,
        height: u32,
        format: PixelCopyFormat,
        pixel_type: PixelType,
    ) -> bool {
        is_tex_image_2d_i32(
            c,
            target.spec_code(),
            level,
            internalformat.spec_code(),
            width,
            height,
            0,
            format.spec_code(),
            pixel_type.spec_code(),
            self@,
        )
    }

    fn tex_image_2d(
        &self,
        context: &mut WebGL2RenderingContext,
        target: TextureBindPoint,
        level: u32,
        internalformat: PixelCopyFormat,
        width: u32,
        height: u32,
        format: PixelCopyFormat,
        pixel_type: PixelType,
    ) -> (r: Result<(), BindingError>) {
        context.tex_image_2d_i32(
            target,
            level,
            internalformat,
            width,
            height,
            0,
            format,
            pixel_type,
            self,
        );
        Ok(())
    }
}

/// Generic buffer dispatch adds nothing and loses nothing: for 32-bit signed
/// elements, the call the `Buffer` capability describes is exactly the call
/// of the raw entry point for that element type, with the element sequence
/// verbatim.
pub proof fn lemma_buffer_dispatch_is_raw_i32(
    v: Vec<i32>,
    c: Call,
    target: BufferKind,
    usage: DataHint,
)
    ensures
        v.describes_buffer_call(c, target, usage) <==> is_buffer_data_i32(
            c,
            target.spec_code(),
            v@,
            usage.spec_code(),
        ),
{
}

/// Generic image dispatch adds nothing and loses nothing: for 32-bit signed
/// elements, the call the `Image` capability describes is exactly the call
/// of the raw entry point for that element type, with the element sequence
/// verbatim and the border argument fixed to zero.
pub proof fn lemma_image_dispatch_is_raw_i32(
    v: Vec<i32>,
    c: Call,
    target: TextureBindPoint,
    level: u32,
    internalformat: PixelCopyFormat,
    width: u32,
    height: u32,
    format: PixelCopyFormat,
    pixel_type: PixelType,
)
    ensures
        v.describes_image_call(c, target, level, internalformat, width, height, format, pixel_type)
            <==> is_tex_image_2d_i32(
            c,
            target.spec_code(),
            level,
            internalformat.spec_code(),
            width,
            height,
            0,
            format.spec_code(),
            pixel_type.spec_code(),
            v@,
        ),
{
}

} // verus!
