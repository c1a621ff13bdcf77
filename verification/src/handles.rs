//! Opaque handles for server-side resources.
//!
//! Each handle type is returned only by its matching creation operation and
//! accepted only by the operations documented as taking it; none can be
//! built from an arbitrary identifier by the host, so handles of different
//! kinds cannot be substituted for one another even though all carry the
//! same kind of identifier underneath.  The one exception is the uniform
//! location, whose creating operation (looking a name up in a linked shader
//! program) lies outside this layer: the external binding supplies its raw
//! identifier.  Deletion is an explicit context operation; this layer does
//! not track handle validity, and using a deleted handle is answered by the
//! external API, not here.

use vstd::prelude::*;

verus! {

/// An occlusion or transform-feedback query object.
#[derive(Debug, Clone, Copy, PartialEq, Eq, Structural)]
pub struct WebGLQuery {
    id: u64,
}

impl WebGLQuery {
    /// The identifier behind this handle.
    pub closed spec fn spec_id(self) -> u64 {
        self.id
    }

    pub fn id(&self) -> (i: u64)
        ensures
            i == self.spec_id(),
    {
        self.id
    }

    pub(crate) fn from_raw(id: u64) -> (h: WebGLQuery)
        ensures
            h.spec_id() == id,
    {
        WebGLQuery { id }
    }
}

/// A sampler object holding a set of sampling parameters.
#[derive(Debug, Clone, Copy, PartialEq, Eq, Structural)]
pub struct WebGLSampler {
    id: u64,
}

impl WebGLSampler {
    /// The identifier behind this handle.
    pub closed spec fn spec_id(self) -> u64 {
        self.id
    }

    pub fn id(&self) -> (i: u64)
        ensures
            i == self.spec_id(),
    {
        self.id
    }

    pub(crate) fn from_raw(id: u64) -> (h: WebGLSampler)
        ensures
            h.spec_id() == id,
    {
        WebGLSampler { id }
    }
}

/// A sync object marking a point in the command stream.
#[derive(Debug, Clone, Copy, PartialEq, Eq, Structural)]
pub struct WebGLSync {
    id: u64,
}

impl WebGLSync {
    /// The identifier behind this handle.
    pub closed spec fn spec_id(self) -> u64 {
        self.id
    }

    pub fn id(&self) -> (i: u64)
        ensures
            i == self.spec_id(),
    {
        self.id
    }

    pub(crate) fn from_raw(id: u64) -> (h: WebGLSync)
        ensures
            h.spec_id() == id,
    {
        WebGLSync { id }
    }
}

/// A transform feedback object capturing primitives.
#[derive(Debug, Clone, Copy, PartialEq, Eq, Structural)]
pub struct WebGLTransformFeedback {
    id: u64,
}

impl WebGLTransformFeedback {
    /// The identifier behind this handle.
    pub closed spec fn spec_id(self) -> u64 {
        self.id
    }

    pub fn id(&self) -> (i: u64)
        ensures
            i == self.spec_id(),
    {
        self.id
    }

    pub(crate) fn from_raw(id: u64) -> (h: WebGLTransformFeedback)
        ensures
            h.spec_id() == id,
    {
        WebGLTransformFeedback { id }
    }
}

/// The location of a uniform variable in a linked shader program; the
/// external binding supplies its identifier, so this is the one handle the
/// host builds itself.
#[derive(Debug, Clone, Copy, PartialEq, Eq, Structural)]
pub struct WebGLUniformLocation {
    id: u64,
}

impl WebGLUniformLocation {
    /// The identifier behind this handle.
    pub closed spec fn spec_id(self) -> u64 {
        self.id
    }

    pub fn id(&self) -> (i: u64)
        ensures
            i == self.spec_id(),
    {
        self.id
    }

    pub fn from_raw(id: u64) -> (h: WebGLUniformLocation)
        ensures
            h.spec_id() == id,
    {
        WebGLUniformLocation { id }
    }
}

/// The range and precision of one shader numeric format, as
/// `get_shader_precision_format` reports them.
#[derive(Debug, Clone, Copy, PartialEq, Eq, Structural)]
pub struct WebGLShaderPrecisionFormat {
    range_min: u32,
    range_max: u32,
    precision: u32,
}

impl WebGLShaderPrecisionFormat {
    /// The base 2 log of the absolute value of the minimum representable value.
    pub closed spec fn spec_range_min(self) -> u32 {
        self.range_min
    }

    /// The base 2 log of the absolute value of the maximum representable value.
    pub closed spec fn spec_range_max(self) -> u32 {
        self.range_max
    }

    /// The number of bits of precision; zero for integer formats.
    pub closed spec fn spec_precision(self) -> u32 {
        self.precision
    }

    pub fn range_min(&self) -> (v: u32)
        ensures
            v == self.spec_range_min(),
    {
        self.range_min
    }

    pub fn range_max(&self) -> (v: u32)
        ensures
            v == self.spec_range_max(),
    {
        self.range_max
    }

    pub fn precision(&self) -> (v: u32)
        ensures
            v == self.spec_precision(),
    {
        self.precision
    }

    pub(crate) fn from_raw(range_min: u32, range_max: u32, precision: u32) -> (f:
        WebGLShaderPrecisionFormat)
        ensures
            f.spec_range_min() == range_min,
            f.spec_range_max() == range_max,
            f.spec_precision() == precision,
    {
        WebGLShaderPrecisionFormat { range_min, range_max, precision }
    }
}

/// The error value an upload reports when the external binding mechanism
/// itself cannot satisfy the call, as distinct from a GPU-level error.
#[derive(Debug, Clone, Copy, PartialEq, Eq, Structural)]
pub struct BindingError;

} // verus!
