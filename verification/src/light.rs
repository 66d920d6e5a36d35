//! Lights.  The format carries light sections inside clumps; this decoder
//! recognizes them only to pass over them, so the type stays a marker.

use vstd::prelude::*;

use crate::{Error, ErrorV};
use crate::stream::{spec_skip_section_expecting, Stream};

verus! {

pub const ID_LIGHT: u32 = 0x0012;

/// Marker for a light section.
#[derive(Debug)]
pub struct Light;

impl Light {
    /// Type id of a light section.
    pub fn section_id() -> (r: u32)
        ensures
            r == ID_LIGHT,
    {
        ID_LIGHT
    }

    /// Skip one whole light section.
    pub fn skip_section(rws: &mut Stream) -> (r: Result<u64, Error>)
        requires
            old(rws).wf(),
        ensures
            final(rws).wf(),
            final(rws)@.data == old(rws)@.data,
            match r {
                Ok(n) => spec_skip_section_expecting(final(rws)@.data, old(rws)@.pos, ID_LIGHT)
                    matches Ok((h, p)) && p == final(rws)@.pos && n == 12 + h.size,
                Err(e) => spec_skip_section_expecting(final(rws)@.data, old(rws)@.pos, ID_LIGHT)
                    == Err::<(crate::stream::Header, int), _>(e@),
            },
    {
        rws.skip_section_expecting(ID_LIGHT)
    }
}

} // verus!
