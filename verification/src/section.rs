//! The strict-typed leading sub-chunk (`Struct`), the trailing plugin
//! region (`Extension`), string payloads, and the byte-level helpers the
//! decoders share.

use vstd::prelude::*;

use crate::{Error, ErrorV};
use crate::stream::{le32, spec_read_header_expecting, spec_read_section_buf_id,
    spec_skip_section_expecting, SectionBuf, Stream};

verus! {

pub const ID_STRUCT: u32 = 0x0001;

pub const ID_STRING: u32 = 0x0002;

pub const ID_EXTENSION: u32 = 0x0003;

/// The strict-typed sub-chunk that leads most domain sections.
#[derive(Debug)]
pub struct Struct;

/// The trailing plugin region many domain sections carry.
#[derive(Debug)]
pub struct Extension;

/// What `Struct::peek_u32` yields (the cursor is restored afterwards).
pub open spec fn spec_peek_struct_u32(data: Seq<u8>, pos: int) -> Result<u32, ErrorV> {
    match spec_read_header_expecting(data, pos, ID_STRUCT) {
        Ok((h, p)) => if p + 4 <= data.len() {
            Ok(le32(data, p))
        } else {
            Err(ErrorV::UnexpectedEndOfData)
        },
        Err(e) => Err(e),
    }
}

impl Struct {
    /// Type id of the strict sub-chunk.
    pub fn section_id() -> (r: u32)
        ensures
            r == ID_STRUCT,
    {
        ID_STRUCT
    }

    /// Read the header of the leading strict sub-chunk, which must carry
    /// the `Struct` type id; its payload follows at the cursor.
    pub fn read_header(rws: &mut Stream) -> (r: Result<crate::stream::Header, Error>)
        requires
            old(rws).wf(),
        ensures
            final(rws).wf(),
            final(rws)@.data == old(rws)@.data,
            match r {
                Ok(h) => spec_read_header_expecting(final(rws)@.data, old(rws)@.pos, ID_STRUCT)
                    == Ok::<_, ErrorV>((h, final(rws)@.pos)),
                Err(e) => spec_read_header_expecting(final(rws)@.data, old(rws)@.pos, ID_STRUCT)
                    == Err::<(crate::stream::Header, int), _>(e@),
            },
    {
        rws.read_header_expecting(ID_STRUCT)
    }

    /// Read the leading 32-bit word of a strict sub-chunk, then restore the
    /// cursor to where it stood before the read.  Used where the meaning of
    /// a section depends on a leading tag that must not be consumed.
    pub fn peek_u32(rws: &mut Stream) -> (r: Result<u32, Error>)
        requires
            old(rws).wf(),
        ensures
            final(rws).wf(),
            final(rws)@.data == old(rws)@.data,
            final(rws)@.pos == old(rws)@.pos,
            match r {
                Ok(w) => spec_peek_struct_u32(final(rws)@.data, old(rws)@.pos) == Ok::<_, ErrorV>(w),
                Err(e) => spec_peek_struct_u32(final(rws)@.data, old(rws)@.pos) == Err::<u32, _>(e@),
            },
    {
        let saved = rws.pos();
        let inner = match rws.read_header_expecting(ID_STRUCT) {
            Ok(_) => rws.read_u32(),
            Err(e) => Err(e),
        };
        rws.seek(saved);
        inner
    }
}

impl Extension {
    /// Type id of the plugin region.
    pub fn section_id() -> (r: u32)
        ensures
            r == ID_EXTENSION,
    {
        ID_EXTENSION
    }

    /// Skip a whole extension region without looking inside it.
    pub fn skip_section(rws: &mut Stream) -> (r: Result<u64, Error>)
        requires
            old(rws).wf(),
        ensures
            final(rws).wf(),
            final(rws)@.data == old(rws)@.data,
            match r {
                Ok(n) => spec_skip_section_expecting(final(rws)@.data, old(rws)@.pos, ID_EXTENSION)
                    matches Ok((h, p)) && p == final(rws)@.pos && n == 12 + h.size,
                Err(e) => spec_skip_section_expecting(final(rws)@.data, old(rws)@.pos, ID_EXTENSION)
                    == Err::<(crate::stream::Header, int), _>(e@),
            },
    {
        rws.skip_section_expecting(ID_EXTENSION)
    }
}

/// Index of the first NUL byte, or the length if there is none.
pub open spec fn first_nul(s: Seq<u8>) -> int
    decreases s.len(),
{
    if s.len() == 0 {
        0
    } else if s[0] == 0 {
        0
    } else {
        1 + first_nul(s.subrange(1, s.len() as int))
    }
}

/// The prefix of `s` before its first NUL byte.
pub open spec fn nul_truncate(s: Seq<u8>) -> Seq<u8> {
    s.subrange(0, first_nul(s))
}

/// `first_nul` is exactly the position of the first zero byte.
pub proof fn lemma_first_nul(s: Seq<u8>, i: int)
    requires
        0 <= i <= s.len(),
        forall|k: int| 0 <= k < i ==> s[k] != 0,
        i == s.len() || s[i] == 0,
    ensures
        first_nul(s) == i,
    decreases i,
{
    if s.len() == 0 {
    } else if i == 0 {
    } else {
        let tail = s.subrange(1, s.len() as int);
        assert(forall|k: int| 0 <= k < i - 1 ==> #[trigger] tail[k] == s[k + 1]);
        assert(i - 1 == tail.len() || tail[i - 1] == 0);
        lemma_first_nul(tail, i - 1);
    }
}

/// ASCII lower-casing of one byte: `A`..`Z` map down, all else unchanged.
pub open spec fn lower_byte(b: u8) -> u8 {
    if 65 <= b <= 90 {
        (b + 32) as u8
    } else {
        b
    }
}

/// ASCII lower-casing of a byte string; texture names compare under it.
pub open spec fn ascii_lower(s: Seq<u8>) -> Seq<u8> {
    Seq::new(s.len(), |i: int| lower_byte(s[i]))
}

/// ASCII lower-casing, byte for byte.
pub fn to_lowercase_bytes(v: &[u8]) -> (r: Vec<u8>)
    ensures
        r@ == ascii_lower(v@),
{
    let mut r: Vec<u8> = Vec::new();
    let mut i: usize = 0;
    while i < v.len()
        invariant
            i <= v@.len(),
            r@.len() == i,
            forall|k: int| 0 <= k < i ==> r@[k] == lower_byte(v@[k]),
        decreases v@.len() - i,
    {
        let b = v[i];
        if 65 <= b && b <= 90 {
            r.push(b + 32);
        } else {
            r.push(b);
        }
        i = i + 1;
    }
    proof {
        assert(r@ =~= ascii_lower(v@));
    }
    r
}

/// Byte-for-byte equality of two byte strings.
pub fn bytes_eq(a: &[u8], b: &[u8]) -> (r: bool)
    ensures
        r == (a@ == b@),
{
    if a.len() != b.len() {
        proof {
            assert(a@.len() != b@.len());
        }
        return false;
    }
    let mut i: usize = 0;
    while i < a.len()
        invariant
            i <= a@.len(),
            a@.len() == b@.len(),
            forall|k: int| 0 <= k < i ==> a@[k] == b@[k],
        decreases a@.len() - i,
    {
        if a[i] != b[i] {
            return false;
        }
        i = i + 1;
    }
    proof {
        assert(a@ =~= b@);
    }
    true
}

/// Whether a byte string is valid UTF-8.  The exact shape of UTF-8 is not
/// restated here; `utf8_check` ties the name to the one decoder relied on.
pub uninterp spec fn is_utf8(s: Seq<u8>) -> bool;

/// Relies on core::str::from_utf8: it accepts exactly the valid UTF-8 byte
/// strings, as a function of the bytes alone.
#[verifier::external_body]
pub fn utf8_check(v: &[u8]) -> (r: bool)
    ensures
        r == is_utf8(v@),
{
    core::str::from_utf8(v).is_ok()
}

/// What decoding a string payload yields: the bytes before the first NUL,
/// required to be valid UTF-8.
pub open spec fn spec_null_terminated(s: Seq<u8>) -> Result<Seq<u8>, ErrorV> {
    if is_utf8(nul_truncate(s)) {
        Ok(nul_truncate(s))
    } else {
        Err(ErrorV::InvalidEncoding)
    }
}

/// Truncate a buffer at its first NUL byte and require the remainder to be
/// valid UTF-8; the bytes themselves are kept.
pub fn from_null_terminated_buffer(v: Vec<u8>) -> (r: Result<Vec<u8>, Error>)
    ensures
        match r {
            Ok(t) => spec_null_terminated(v@) == Ok::<_, ErrorV>(t@),
            Err(e) => spec_null_terminated(v@) == Err::<Seq<u8>, _>(e@),
        },
{
    let mut v = v;
    let mut i: usize = 0;
    while i < v.len() && v[i] != 0
        invariant
            i <= v@.len(),
            forall|k: int| 0 <= k < i ==> v@[k] != 0,
        decreases v@.len() - i,
    {
        i = i + 1;
    }
    proof {
        lemma_first_nul(v@, i as int);
    }
    v.truncate(i);
    if utf8_check(v.as_slice()) {
        Ok(v)
    } else {
        Err(Error::InvalidEncoding)
    }
}

/// What reading a whole string section yields: a `String`-typed section
/// header, then a NUL-terminated UTF-8 payload.
pub open spec fn spec_rw_string(data: Seq<u8>, pos: int) -> Result<(Seq<u8>, int), ErrorV> {
    match spec_read_section_buf_id(data, pos, ID_STRING) {
        Ok((sb, p)) => match spec_null_terminated(sb.data) {
            Ok(t) => Ok((t, p)),
            Err(e) => Err(e),
        },
        Err(e) => Err(e),
    }
}

/// Read a string section: a `String`-typed header, a payload truncated at
/// its first NUL, and a UTF-8 validity check on what remains.
pub fn read_rw_string(rws: &mut Stream) -> (r: Result<Vec<u8>, Error>)
    requires
        old(rws).wf(),
    ensures
        final(rws).wf(),
        final(rws)@.data == old(rws)@.data,
        match r {
            Ok(t) => spec_rw_string(final(rws)@.data, old(rws)@.pos) == Ok::<_, ErrorV>(
                (t@, final(rws)@.pos as int),
            ),
            Err(e) => spec_rw_string(final(rws)@.data, old(rws)@.pos) == Err::<(Seq<u8>, int), _>(
                e@,
            ),
        },
{
    let sb = match SectionBuf::read_section_id(rws, ID_STRING) {
        Ok(sb) => sb,
        Err(e) => {
            return Err(e);
        },
    };
    from_null_terminated_buffer(sb.data)
}

} // verus!
