//! Clumps: the top-level containers that a scene stream delivers — an
//! ordered collection of atomics sharing one frame hierarchy.

use vstd::prelude::*;

use std::rc::Rc;

use crate::{Error, ErrorV};
use crate::atomic::{spec_parse_atomic, Atomic, AtomicV};
use crate::frame::{frames_wf, spec_parse_framelist, FrameList, FrameV};
use crate::geometry::{spec_parse_geometrylist, GeometryList, GeometryV};
use crate::light::{Light, ID_LIGHT};
use crate::section::{Extension, Struct, ID_EXTENSION, ID_STRUCT};
use crate::session::Instance;
use crate::stream::{le32, spec_read_header_expecting, spec_skip_section_expecting, Stream};
use crate::texture::TexDictionaryV;

verus! {

pub const ID_CLUMP: u32 = 0x0010;

/// A decoded scene object: its atomics and the frame hierarchy they hang
/// from.  Atomics are shared, so one may sit in several clumps.
#[derive(Debug)]
pub struct Clump {
    pub atomics: Vec<Rc<Atomic>>,
    pub frames: FrameList,
}

/// Mathematical image of a `Clump`.
pub struct ClumpV {
    pub atomics: Seq<AtomicV>,
    pub frames: Seq<FrameV>,
}

impl View for Clump {
    type V = ClumpV;

    open spec fn view(&self) -> ClumpV {
        ClumpV {
            atomics: Seq::new(self.atomics@.len(), |i: int| self.atomics@[i]@),
            frames: self.frames@,
        }
    }
}

/// Parse `n` atomics against the clump's frame and geometry lists.
pub open spec fn spec_parse_atomics(
    data: Seq<u8>,
    pos: int,
    n: nat,
    dict: Option<TexDictionaryV>,
    nframes: int,
    geos: Seq<GeometryV>,
    acc: Seq<AtomicV>,
) -> Result<(Seq<AtomicV>, int), ErrorV>
    decreases n,
{
    if n == 0 {
        Ok((acc, pos))
    } else {
        match spec_parse_atomic(data, pos, dict, nframes, geos) {
            Ok((a, p)) => spec_parse_atomics(data, p, (n - 1) as nat, dict, nframes, geos, acc.push(a)),
            Err(e) => Err(e),
        }
    }
}

/// Skip `n` light entries, each a strict sub-chunk followed by a light
/// section.
pub open spec fn spec_skip_lights(data: Seq<u8>, pos: int, n: nat) -> Result<int, ErrorV>
    decreases n,
{
    if n == 0 {
        Ok(pos)
    } else {
        match spec_skip_section_expecting(data, pos, ID_STRUCT) {
            Ok((_, p0)) => match spec_skip_section_expecting(data, p0, ID_LIGHT) {
                Ok((_, p1)) => spec_skip_lights(data, p1, (n - 1) as nat),
                Err(e) => Err(e),
            },
            Err(e) => Err(e),
        }
    }
}

/// What decoding a whole clump yields: atomic, light and camera counts;
/// the frame list; the geometry list; the atomics; the lights (passed
/// over); and a skipped extension region.  Cameras carry no stream data
/// here.
pub open spec fn spec_parse_clump(data: Seq<u8>, pos: int, dict: Option<TexDictionaryV>) -> Result<
    (ClumpV, int),
    ErrorV,
> {
    match spec_read_header_expecting(data, pos, ID_CLUMP) {
        Ok((_, p0)) => match spec_read_header_expecting(data, p0, ID_STRUCT) {
            Ok((_, p1)) => if p1 + 12 <= data.len() {
                let natomics = le32(data, p1);
                let nlights = le32(data, p1 + 4);
                match spec_parse_framelist(data, p1 + 12) {
                    Ok((frames, p2)) => match spec_parse_geometrylist(data, p2, dict) {
                        Ok((geos, p3)) => match spec_parse_atomics(
                            data,
                            p3,
                            natomics as nat,
                            dict,
                            frames.len() as int,
                            geos,
                            Seq::empty(),
                        ) {
                            Ok((atomics, p4)) => match spec_skip_lights(data, p4, nlights as nat) {
                                Ok(p5) => match spec_skip_section_expecting(
                                    data,
                                    p5,
                                    ID_EXTENSION,
                                ) {
                                    Ok((_, p6)) => Ok((ClumpV { atomics, frames }, p6)),
                                    Err(e) => Err(e),
                                },
                                Err(e) => Err(e),
                            },
                            Err(e) => Err(e),
                        },
                        Err(e) => Err(e),
                    },
                    Err(e) => Err(e),
                }
            } else {
                Err(ErrorV::UnexpectedEndOfData)
            },
            Err(e) => Err(e),
        },
        Err(e) => Err(e),
    }
}

impl Clump {
    /// Type id of a clump section.
    pub fn section_id() -> (r: u32)
        ensures
            r == ID_CLUMP,
    {
        ID_CLUMP
    }

    /// A clump over the given atomics and frame hierarchy.
    pub fn new(atomics: Vec<Rc<Atomic>>, frames: FrameList) -> (r: Clump)
        ensures
            r@.atomics == Seq::new(atomics@.len(), |i: int| atomics@[i]@),
            r@.frames == frames@,
    {
        Clump { atomics, frames }
    }

    /// Extract the last atomic of the clump, if any.
    pub fn into_atomic(self) -> (r: Option<Rc<Atomic>>)
        ensures
            match r {
                Some(a) => self@.atomics.len() > 0 && a@ == self@.atomics.last(),
                None => self@.atomics.len() == 0,
            },
    {
        let mut atomics = self.atomics;
        atomics.pop()
    }

    /// Read a whole clump: counts, the frame list, the geometry list, the
    /// atomics (each resolving frame and geometry back-references), the
    /// lights passed over, and the trailing extension region.
    #[verifier::loop_isolation(false)]
    pub fn read(rws: &mut Stream, inst: &Instance) -> (r: Result<Clump, Error>)
        requires
            old(rws).wf(),
        ensures
            final(rws).wf(),
            final(rws)@.data == old(rws)@.data,
            match r {
                Ok(c) => spec_parse_clump(final(rws)@.data, old(rws)@.pos, inst@) == Ok::<
                    _,
                    ErrorV,
                >((c@, final(rws)@.pos as int)) && frames_wf(c@.frames),
                Err(e) => spec_parse_clump(final(rws)@.data, old(rws)@.pos, inst@) == Err::<
                    (ClumpV, int),
                    _,
                >(e@),
            },
    {
        let ghost data = old(rws)@.data;
        match rws.read_header_expecting(ID_CLUMP) {
            Ok(_) => (),
            Err(e) => {
                return Err(e);
            },
        }
        match Struct::read_header(rws) {
            Ok(_) => (),
            Err(e) => {
                return Err(e);
            },
        }
        if rws.remaining() < 12 {
            return Err(Error::UnexpectedEndOfData);
        }
        let natomics = match rws.read_u32() {
            Ok(w) => w,
            Err(e) => {
                return Err(e);
            },
        };
        let nlights = match rws.read_u32() {
            Ok(w) => w,
            Err(e) => {
                return Err(e);
            },
        };
        let _ncameras = match rws.read_u32() {
            Ok(w) => w,
            Err(e) => {
                return Err(e);
            },
        };
        let framelist = match FrameList::read(rws) {
            Ok(fl) => fl,
            Err(e) => {
                return Err(e);
            },
        };
        let geolist = match GeometryList::read(rws, inst) {
            Ok(gl) => gl,
            Err(e) => {
                return Err(e);
            },
        };
        let ghost atomics_start = rws@.pos;
        let mut atomics: Vec<Rc<Atomic>> = Vec::new();
        proof {
            assert(Seq::new(atomics@.len(), |k: int| atomics@[k]@) =~= Seq::<AtomicV>::empty());
        }
        let mut i: usize = 0;
        while i < natomics as usize
            invariant
                rws.wf(),
                rws@.data == data,
                i <= natomics,
                atomics@.len() == i,
                spec_parse_atomics(
                    data,
                    atomics_start,
                    natomics as nat,
                    inst@,
                    framelist@.len() as int,
                    geolist@,
                    Seq::empty(),
                ) == spec_parse_atomics(
                    data,
                    rws@.pos as int,
                    (natomics - i) as nat,
                    inst@,
                    framelist@.len() as int,
                    geolist@,
                    Seq::new(atomics@.len(), |k: int| atomics@[k]@),
                ),
            decreases natomics - i,
        {
            let a = match Atomic::read(rws, inst, &framelist, &geolist) {
                Ok(a) => a,
                Err(e) => {
                    return Err(e);
                },
            };
            let ghost pre = Seq::new(atomics@.len(), |k: int| atomics@[k]@);
            let ghost av = a@;
            atomics.push(a);
            proof {
                assert(Seq::new(atomics@.len(), |k: int| atomics@[k]@) =~= pre.push(av));
            }
            i = i + 1;
        }
        let ghost lights_start = rws@.pos;
        let mut i: usize = 0;
        while i < nlights as usize
            invariant
                rws.wf(),
                rws@.data == data,
                i <= nlights,
                spec_skip_lights(data, lights_start, nlights as nat) == spec_skip_lights(
                    data,
                    rws@.pos as int,
                    (nlights - i) as nat,
                ),
            decreases nlights - i,
        {
            match rws.skip_section_expecting(crate::section::ID_STRUCT) {
                Ok(_) => (),
                Err(e) => {
                    return Err(e);
                },
            }
            match Light::skip_section(rws) {
                Ok(_) => (),
                Err(e) => {
                    return Err(e);
                },
            }
            i = i + 1;
        }
        match Extension::skip_section(rws) {
            Ok(_) => (),
            Err(e) => {
                return Err(e);
            },
        }
        Ok(Clump::new(atomics, framelist))
    }
}

} // verus!
