//! Fixed-size geometric and color primitives with direct little-endian
//! field decoding.
//!
//! The format stores vectors, texture coordinates, spheres and matrices as
//! IEEE-754 single-precision floats.  This crate carries each such field as
//! its raw little-endian 32-bit word and never interprets it numerically;
//! consumers that need the numeric value reassemble it from the word.

use vstd::prelude::*;

use crate::{Error, ErrorV};
use crate::stream::{le32, Stream};

verus! {

/// Color and alpha components in four 8-bit values.
#[derive(Debug, Copy, Clone, PartialEq, Eq, Structural)]
pub struct Rgba(pub u8, pub u8, pub u8, pub u8);

/// UV texture coordinates; each component is a raw 32-bit float encoding.
#[derive(Debug, Copy, Clone, PartialEq, Eq, Structural)]
pub struct Uv(pub u32, pub u32);

/// A 3D point or vector; each component is a raw 32-bit float encoding.
#[derive(Debug, Copy, Clone, PartialEq, Eq, Structural)]
pub struct Vec3(pub u32, pub u32, pub u32);

/// A sphere in 3D space; the radius is a raw 32-bit float encoding.
#[derive(Debug, Copy, Clone, PartialEq, Eq, Structural)]
pub struct Sphere {
    pub center: Vec3,
    pub radius: u32,
}

/// A 4x3 row-major affine transform; entries are raw 32-bit float encodings.
#[derive(Debug, Copy, Clone, PartialEq, Eq, Structural)]
pub struct Matrix {
    pub right: Vec3,
    pub top: Vec3,
    pub at: Vec3,
    pub pos: Vec3,
}

/// A 2D device-space rectangle.
#[derive(Debug, Copy, Clone, PartialEq, Eq, Structural)]
pub struct Rect {
    pub x: u32,
    pub y: u32,
    pub w: u32,
    pub h: u32,
}

/// What `Rgba::read` yields: four bytes, in order.
pub open spec fn spec_parse_rgba(data: Seq<u8>, pos: int) -> Result<(Rgba, int), ErrorV> {
    if pos + 4 <= data.len() {
        Ok((Rgba(data[pos], data[pos + 1], data[pos + 2], data[pos + 3]), pos + 4))
    } else {
        Err(ErrorV::UnexpectedEndOfData)
    }
}

/// What `Uv::read` yields: two little-endian words.
pub open spec fn spec_parse_uv(data: Seq<u8>, pos: int) -> Result<(Uv, int), ErrorV> {
    if pos + 8 <= data.len() {
        Ok((Uv(le32(data, pos), le32(data, pos + 4)), pos + 8))
    } else {
        Err(ErrorV::UnexpectedEndOfData)
    }
}

/// What `Vec3::read` yields: three little-endian words.
pub open spec fn spec_parse_vec3(data: Seq<u8>, pos: int) -> Result<(Vec3, int), ErrorV> {
    if pos + 12 <= data.len() {
        Ok((Vec3(le32(data, pos), le32(data, pos + 4), le32(data, pos + 8)), pos + 12))
    } else {
        Err(ErrorV::UnexpectedEndOfData)
    }
}

/// What `Sphere::read` yields: a vector then a radius word.
pub open spec fn spec_parse_sphere(data: Seq<u8>, pos: int) -> Result<(Sphere, int), ErrorV> {
    if pos + 16 <= data.len() {
        Ok(
            (
                Sphere {
                    center: Vec3(le32(data, pos), le32(data, pos + 4), le32(data, pos + 8)),
                    radius: le32(data, pos + 12),
                },
                pos + 16,
            ),
        )
    } else {
        Err(ErrorV::UnexpectedEndOfData)
    }
}

/// What `Matrix::read` yields: four vectors, twelve words in all.
pub open spec fn spec_parse_matrix(data: Seq<u8>, pos: int) -> Result<(Matrix, int), ErrorV> {
    if pos + 48 <= data.len() {
        Ok(
            (
                Matrix {
                    right: Vec3(le32(data, pos), le32(data, pos + 4), le32(data, pos + 8)),
                    top: Vec3(le32(data, pos + 12), le32(data, pos + 16), le32(data, pos + 20)),
                    at: Vec3(le32(data, pos + 24), le32(data, pos + 28), le32(data, pos + 32)),
                    pos: Vec3(le32(data, pos + 36), le32(data, pos + 40), le32(data, pos + 44)),
                },
                pos + 48,
            ),
        )
    } else {
        Err(ErrorV::UnexpectedEndOfData)
    }
}

impl Rgba {
    /// Read four bytes as an RGBA value.
    pub fn read(rws: &mut Stream) -> (r: Result<Rgba, Error>)
        requires
            old(rws).wf(),
        ensures
            final(rws).wf(),
            final(rws)@.data == old(rws)@.data,
            match r {
                Ok(v) => spec_parse_rgba(final(rws)@.data, old(rws)@.pos) == Ok::<_, ErrorV>(
                    (v, final(rws)@.pos as int),
                ),
                Err(e) => spec_parse_rgba(final(rws)@.data, old(rws)@.pos) == Err::<(Rgba, int), _>(
                    e@,
                ),
            },
    {
        let r = match rws.read_u8() {
            Ok(b) => b,
            Err(e) => {
                return Err(e);
            },
        };
        let g = match rws.read_u8() {
            Ok(b) => b,
            Err(e) => {
                return Err(e);
            },
        };
        let b = match rws.read_u8() {
            Ok(b) => b,
            Err(e) => {
                return Err(e);
            },
        };
        let a = match rws.read_u8() {
            Ok(b) => b,
            Err(e) => {
                return Err(e);
            },
        };
        Ok(Rgba(r, g, b, a))
    }
}

impl Uv {
    /// Read two raw float words as a UV pair.
    pub fn read(rws: &mut Stream) -> (r: Result<Uv, Error>)
        requires
            old(rws).wf(),
        ensures
            final(rws).wf(),
            final(rws)@.data == old(rws)@.data,
            match r {
                Ok(v) => spec_parse_uv(final(rws)@.data, old(rws)@.pos) == Ok::<_, ErrorV>(
                    (v, final(rws)@.pos as int),
                ),
                Err(e) => spec_parse_uv(final(rws)@.data, old(rws)@.pos) == Err::<(Uv, int), _>(e@),
            },
    {
        let u = match rws.read_u32() {
            Ok(w) => w,
            Err(e) => {
                return Err(e);
            },
        };
        let v = match rws.read_u32() {
            Ok(w) => w,
            Err(e) => {
                return Err(e);
            },
        };
        Ok(Uv(u, v))
    }
}

impl Vec3 {
    /// Read three raw float words as a vector.
    pub fn read(rws: &mut Stream) -> (r: Result<Vec3, Error>)
        requires
            old(rws).wf(),
        ensures
            final(rws).wf(),
            final(rws)@.data == old(rws)@.data,
            match r {
                Ok(v) => spec_parse_vec3(final(rws)@.data, old(rws)@.pos) == Ok::<_, ErrorV>(
                    (v, final(rws)@.pos as int),
                ),
                Err(e) => spec_parse_vec3(final(rws)@.data, old(rws)@.pos) == Err::<(Vec3, int), _>(
                    e@,
                ),
            },
    {
        let x = match rws.read_u32() {
            Ok(w) => w,
            Err(e) => {
                return Err(e);
            },
        };
        let y = match rws.read_u32() {
            Ok(w) => w,
            Err(e) => {
                return Err(e);
            },
        };
        let z = match rws.read_u32() {
            Ok(w) => w,
            Err(e) => {
                return Err(e);
            },
        };
        Ok(Vec3(x, y, z))
    }
}

impl Sphere {
    /// Read a bounding sphere: center vector then radius word.
    pub fn read(rws: &mut Stream) -> (r: Result<Sphere, Error>)
        requires
            old(rws).wf(),
        ensures
            final(rws).wf(),
            final(rws)@.data == old(rws)@.data,
            match r {
                Ok(v) => spec_parse_sphere(final(rws)@.data, old(rws)@.pos) == Ok::<_, ErrorV>(
                    (v, final(rws)@.pos as int),
                ),
                Err(e) => spec_parse_sphere(final(rws)@.data, old(rws)@.pos) == Err::<
                    (Sphere, int),
                    _,
                >(e@),
            },
    {
        let center = match Vec3::read(rws) {
            Ok(v) => v,
            Err(e) => {
                return Err(e);
            },
        };
        let radius = match rws.read_u32() {
            Ok(w) => w,
            Err(e) => {
                return Err(e);
            },
        };
        Ok(Sphere { center, radius })
    }
}

impl Matrix {
    /// Read a 4x3 affine matrix: right, top, at, then position.
    pub fn read(rws: &mut Stream) -> (r: Result<Matrix, Error>)
        requires
            old(rws).wf(),
        ensures
            final(rws).wf(),
            final(rws)@.data == old(rws)@.data,
            match r {
                Ok(v) => spec_parse_matrix(final(rws)@.data, old(rws)@.pos) == Ok::<_, ErrorV>(
                    (v, final(rws)@.pos as int),
                ),
                Err(e) => spec_parse_matrix(final(rws)@.data, old(rws)@.pos) == Err::<
                    (Matrix, int),
                    _,
                >(e@),
            },
    {
        let right = match Vec3::read(rws) {
            Ok(v) => v,
            Err(e) => {
                return Err(e);
            },
        };
        let top = match Vec3::read(rws) {
            Ok(v) => v,
            Err(e) => {
                return Err(e);
            },
        };
        let at = match Vec3::read(rws) {
            Ok(v) => v,
            Err(e) => {
                return Err(e);
            },
        };
        let pos = match Vec3::read(rws) {
            Ok(v) => v,
            Err(e) => {
                return Err(e);
            },
        };
        Ok(Matrix { right, top, at, pos })
    }
}

} // verus!
