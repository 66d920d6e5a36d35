//! Decoder for a legacy chunk-based 3D-scene binary format.
//!
//! A stream of self-describing "sections" (12-byte header: type id, payload
//! size, format version) carries a transform hierarchy, geometry, materials
//! and block-compressed textures.  The decoder walks the bytes exactly once,
//! front to back, resolving back-references by index into the partially
//! built lists and texture names against a dictionary bound to the decode
//! session.
//!
//! Floating-point fields of the format (matrix entries, texture coordinates,
//! reflectance coefficients) are carried as their raw little-endian 32-bit
//! encodings; this crate never interprets them numerically, so the object
//! graph it builds is exact down to the bit.

use vstd::prelude::*;

mod stream;
mod section;
mod basic;
mod frame;
mod texture;
mod session;
mod material;
mod geometry;
mod atomic;
mod clump;
mod light;

pub use stream::{Stream, StreamV, Header, SectionBuf, SectionBufV};
pub use section::{Struct, Extension, read_rw_string, from_null_terminated_buffer,
    to_lowercase_bytes, bytes_eq};
pub use basic::{Rgba, Uv, Vec3, Sphere, Matrix, Rect};
pub use frame::{Frame, FrameV, FrameList, NodeNamePlg};
pub use texture::{FilterMode, WrapMode, RasterFormat, TextureData, TextureDataV, TexLevel,
    TexLevelV, Raster, RasterV, Texture, TextureV, SimpleTexture, SimpleTextureV, TexDictionary,
    TexDictionaryV, TexNative};
pub use session::Instance;
pub use material::{SurfaceProperties, Material, MaterialV, MaterialList, MaterialListV};
pub use geometry::{Face, MorphTarget, MorphTargetV, Geometry, GeometryV, GeometryList, Mesh,
    MeshV, MeshHeader, MeshHeaderV};
pub use atomic::{AtomicFlags, Atomic, AtomicV};
pub use clump::{Clump, ClumpV};
pub use light::Light;

verus! {

/// A decode failure.  Every failure is terminal to the decode call that
/// raised it; the decoder never returns a partially built graph.
#[derive(Debug)]
pub enum Error {
    /// Fewer bytes remain than a header or a declared payload size requires.
    UnexpectedEndOfData,
    /// A specific section was required but a section of another type was found.
    SectionMismatch { expected: u32, found: u32 },
    /// A forward scan ran to the end of the stream (or to a zero-id
    /// terminator header) without finding the requested section type.
    SectionNotFound(u32),
    /// A material or frame back-reference indexes past the already-built
    /// prefix of its list.
    InvalidBackReference,
    /// A string payload was not valid UTF-8 after truncation at its first NUL.
    InvalidEncoding,
    /// A recognized but unimplemented platform tag in a native texture.
    UnsupportedPlatform(u32),
    /// A recognized but unimplemented raster format word.
    UnsupportedFormat(u32),
    /// No dictionary is bound, or the bound dictionary lacks the named texture.
    TextureNotFound(Vec<u8>),
}

/// Mathematical image of `Error`; contracts speak of this form.
pub enum ErrorV {
    UnexpectedEndOfData,
    SectionMismatch { expected: u32, found: u32 },
    SectionNotFound(u32),
    InvalidBackReference,
    InvalidEncoding,
    UnsupportedPlatform(u32),
    UnsupportedFormat(u32),
    TextureNotFound(Seq<u8>),
}

impl View for Error {
    type V = ErrorV;

    open spec fn view(&self) -> ErrorV {
        match self {
            Error::UnexpectedEndOfData => ErrorV::UnexpectedEndOfData,
            Error::SectionMismatch { expected, found } => ErrorV::SectionMismatch {
                expected: *expected,
                found: *found,
            },
            Error::SectionNotFound(id) => ErrorV::SectionNotFound(*id),
            Error::InvalidBackReference => ErrorV::InvalidBackReference,
            Error::InvalidEncoding => ErrorV::InvalidEncoding,
            Error::UnsupportedPlatform(tag) => ErrorV::UnsupportedPlatform(*tag),
            Error::UnsupportedFormat(word) => ErrorV::UnsupportedFormat(*word),
            Error::TextureNotFound(name) => ErrorV::TextureNotFound(name@),
        }
    }
}

/// Relies on Rc::clone: the clone shares the original's allocation, so it
/// carries the same value.
#[verifier::external_body]
pub fn rc_clone<T>(rc: &std::rc::Rc<T>) -> (r: std::rc::Rc<T>)
    ensures
        r == *rc,
{
    std::rc::Rc::clone(rc)
}

} // verus!
