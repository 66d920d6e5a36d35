//! Atomics: the pairing of one geometry with an optional frame of the
//! enclosing clump's hierarchy, plus behavior flags.

use vstd::prelude::*;

use std::rc::Rc;

use crate::{rc_clone, Error, ErrorV};
use crate::frame::FrameList;
use crate::geometry::{spec_parse_geometry, Geometry, GeometryList, GeometryV};
use crate::section::{Extension, Struct, ID_EXTENSION, ID_STRUCT};
use crate::session::Instance;
use crate::stream::{le32, spec_read_header_expecting, spec_skip_section_expecting, Stream};
use crate::texture::TexDictionaryV;

verus! {

pub const ID_ATOMIC: u32 = 0x0014;

/// Behavior flags of an atomic; only the collision-test and render bits
/// are meaningful, all others are dropped on decode.
#[derive(Debug, Copy, Clone, PartialEq, Eq, Structural)]
pub struct AtomicFlags(pub u32);

impl AtomicFlags {
    /// Keep only the defined flag bits of a raw word.
    pub fn from_bits_truncate(bits: u32) -> (r: AtomicFlags)
        ensures
            r.0 == bits & 0x5,
    {
        AtomicFlags(bits & 0x5)
    }

    /// Whether the atomic takes part in collision tests.
    pub fn collision_test(&self) -> (r: bool)
        ensures
            r == (self.0 & 0x1 != 0),
    {
        self.0 & 0x1 != 0
    }

    /// Whether the atomic is rendered when in the view frustum.
    pub fn render(&self) -> (r: bool)
        ensures
            r == (self.0 & 0x4 != 0),
    {
        self.0 & 0x4 != 0
    }
}

/// One geometry bound to an optional frame (an index into the enclosing
/// clump's frame list) and behavior flags.  The geometry is shared: several
/// atomics may reference the same one.
#[derive(Debug)]
pub struct Atomic {
    pub frame: Option<usize>,
    pub geometry: Rc<Geometry>,
    pub flags: AtomicFlags,
}

/// Mathematical image of an `Atomic`.
pub struct AtomicV {
    pub frame: Option<int>,
    pub geometry: GeometryV,
    pub flags: AtomicFlags,
}

impl View for Atomic {
    type V = AtomicV;

    open spec fn view(&self) -> AtomicV {
        AtomicV {
            frame: match self.frame {
                Some(f) => Some(f as int),
                None => None,
            },
            geometry: self.geometry@,
            flags: self.flags,
        }
    }
}

/// What decoding one atomic yields: a frame index, a geometry index, a
/// flags word and an ignored word.  When the enclosing clump's geometry
/// list is empty the geometry follows inline; otherwise the index must
/// point into the list, and an index past it is an `InvalidBackReference`.
/// A frame index past the frame list leaves the atomic unparented.
pub open spec fn spec_parse_atomic(
    data: Seq<u8>,
    pos: int,
    dict: Option<TexDictionaryV>,
    nframes: int,
    geos: Seq<GeometryV>,
) -> Result<(AtomicV, int), ErrorV> {
    match spec_read_header_expecting(data, pos, ID_ATOMIC) {
        Ok((_, p0)) => match spec_read_header_expecting(data, p0, ID_STRUCT) {
            Ok((_, p1)) => if p1 + 16 <= data.len() {
                let frame_idx = le32(data, p1);
                let geo_idx = le32(data, p1 + 4);
                let flags = le32(data, p1 + 8);
                let geo_r: Result<(GeometryV, int), ErrorV> = if geos.len() == 0 {
                    spec_parse_geometry(data, p1 + 16, dict)
                } else if geo_idx < geos.len() {
                    Ok((geos[geo_idx as int], p1 + 16))
                } else {
                    Err(ErrorV::InvalidBackReference)
                };
                match geo_r {
                    Ok((g, p2)) => match spec_skip_section_expecting(data, p2, ID_EXTENSION) {
                        Ok((_, p3)) => Ok(
                            (
                                AtomicV {
                                    frame: if frame_idx < nframes {
                                        Some(frame_idx as int)
                                    } else {
                                        None
                                    },
                                    geometry: g,
                                    flags: AtomicFlags(flags & 0x5),
                                },
                                p3,
                            ),
                        ),
                        Err(e) => Err(e),
                    },
                    Err(e) => Err(e),
                }
            } else {
                Err(ErrorV::UnexpectedEndOfData)
            },
            Err(e) => Err(e),
        },
        Err(e) => Err(e),
    }
}

impl Atomic {
    /// Type id of an atomic section.
    pub fn section_id() -> (r: u32)
        ensures
            r == ID_ATOMIC,
    {
        ID_ATOMIC
    }

    /// An unparented atomic over the given shared geometry.
    pub fn new(flags: AtomicFlags, geometry: Rc<Geometry>) -> (r: Atomic)
        ensures
            r@.frame is None,
            r@.geometry == geometry@,
            r@.flags == flags,
    {
        Atomic { frame: None, geometry, flags }
    }

    /// An atomic over the given shared geometry, attached to the given
    /// frame index (of the enclosing clump's frame list), if any.
    pub fn with_frame(frame: Option<usize>, flags: AtomicFlags, geometry: Rc<Geometry>) -> (r: Rc<
        Atomic,
    >)
        ensures
            r@.frame == (match frame {
                Some(f) => Some(f as int),
                None => None::<int>,
            }),
            r@.geometry == geometry@,
            r@.flags == flags,
    {
        Rc::new(Atomic { frame, geometry, flags })
    }

    /// Read one atomic against the already-decoded frame and geometry
    /// lists of its clump; with an empty geometry list the geometry is
    /// decoded inline from the stream.
    #[verifier::rlimit(100)]
    #[verifier::spinoff_prover]
    pub fn read(rws: &mut Stream, inst: &Instance, framelist: &FrameList, geolist: &GeometryList) -> (r:
        Result<Rc<Atomic>, Error>)
        requires
            old(rws).wf(),
        ensures
            final(rws).wf(),
            final(rws)@.data == old(rws)@.data,
            match r {
                Ok(a) => spec_parse_atomic(
                    final(rws)@.data,
                    old(rws)@.pos,
                    inst@,
                    framelist@.len() as int,
                    geolist@,
                ) == Ok::<_, ErrorV>((a@, final(rws)@.pos as int)),
                Err(e) => spec_parse_atomic(
                    final(rws)@.data,
                    old(rws)@.pos,
                    inst@,
                    framelist@.len() as int,
                    geolist@,
                ) == Err::<(AtomicV, int), _>(e@),
            },
    {
        match rws.read_header_expecting(ID_ATOMIC) {
            Ok(_) => (),
            Err(e) => {
                return Err(e);
            },
        }
        match Struct::read_header(rws) {
            Ok(_) => (),
            Err(e) => {
                return Err(e);
            },
        }
        let frame_idx = match rws.read_u32() {
            Ok(w) => w,
            Err(e) => {
                return Err(e);
            },
        };
        let geo_idx = match rws.read_u32() {
            Ok(w) => w,
            Err(e) => {
                return Err(e);
            },
        };
        let flags = match rws.read_u32() {
            Ok(w) => w,
            Err(e) => {
                return Err(e);
            },
        };
        let _unused = match rws.read_u32() {
            Ok(w) => w,
            Err(e) => {
                return Err(e);
            },
        };
        let geometry: Rc<Geometry> = if geolist.len() == 0 {
            match Geometry::read(rws, inst) {
                Ok(g) => Rc::new(g),
                Err(e) => {
                    return Err(e);
                },
            }
        } else {
            match geolist.get(geo_idx as usize) {
                Some(g) => g,
                None => {
                    return Err(Error::InvalidBackReference);
                },
            }
        };
        match Extension::skip_section(rws) {
            Ok(_) => (),
            Err(e) => {
                return Err(e);
            },
        }
        let frame: Option<usize> = if (frame_idx as usize) < framelist.len() {
            Some(frame_idx as usize)
        } else {
            None
        };
        Ok(Atomic::with_frame(frame, AtomicFlags::from_bits_truncate(flags), geometry))
    }
}

} // verus!
