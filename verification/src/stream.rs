//! Byte cursor over an in-memory stream, and the section-header framework.
//!
//! All parsing in this crate runs over `Stream`: a position into an owned
//! byte buffer.  Reads are fallible (`Error::UnexpectedEndOfData` when fewer
//! bytes remain than requested) and never move the cursor past the end of
//! the buffer.  Every multi-byte integer of the format is little-endian.

use vstd::prelude::*;

use crate::{Error, ErrorV};

verus! {

/// Little-endian 16-bit word starting at `pos`.
pub open spec fn le16(data: Seq<u8>, pos: int) -> u16 {
    (data[pos] + data[pos + 1] * 0x100) as u16
}

/// Little-endian 32-bit word starting at `pos`.
pub open spec fn le32(data: Seq<u8>, pos: int) -> u32 {
    (data[pos] + data[pos + 1] * 0x100 + data[pos + 2] * 0x10000 + data[pos + 3]
        * 0x1000000) as u32
}

/// A 12-byte section header: type id, payload size in bytes, format version.
#[derive(Debug, Copy, Clone, PartialEq, Eq, Structural)]
pub struct Header {
    pub id: u32,
    pub size: u32,
    pub version: u32,
}

/// The header encoded at `pos` (meaningful only when 12 bytes remain).
pub open spec fn header_at(data: Seq<u8>, pos: int) -> Header {
    Header { id: le32(data, pos), size: le32(data, pos + 4), version: le32(data, pos + 8) }
}

/// What `Stream::read_header` yields: the header and the cursor position
/// after it, or the failure.
pub open spec fn spec_read_header(data: Seq<u8>, pos: int) -> Result<(Header, int), ErrorV> {
    if pos + 12 <= data.len() {
        Ok((header_at(data, pos), pos + 12))
    } else {
        Err(ErrorV::UnexpectedEndOfData)
    }
}

/// What `Stream::read_header_expecting` yields.
pub open spec fn spec_read_header_expecting(data: Seq<u8>, pos: int, id: u32) -> Result<
    (Header, int),
    ErrorV,
> {
    match spec_read_header(data, pos) {
        Ok((h, p)) => if h.id == id {
            Ok((h, p))
        } else {
            Err(ErrorV::SectionMismatch { expected: id, found: h.id })
        },
        Err(e) => Err(e),
    }
}

/// Cursor position after skipping `n` payload bytes from `pos`.
pub open spec fn spec_advance(data: Seq<u8>, pos: int, n: u32) -> Result<int, ErrorV> {
    if pos + n <= data.len() {
        Ok(pos + n)
    } else {
        Err(ErrorV::UnexpectedEndOfData)
    }
}

/// What `Stream::skip_section` yields: the skipped header and the cursor
/// position past its payload.
pub open spec fn spec_skip_section(data: Seq<u8>, pos: int) -> Result<(Header, int), ErrorV> {
    match spec_read_header(data, pos) {
        Ok((h, p)) => match spec_advance(data, p, h.size) {
            Ok(p2) => Ok((h, p2)),
            Err(e) => Err(e),
        },
        Err(e) => Err(e),
    }
}

/// As `spec_skip_section`, but the header must carry the given type id.
pub open spec fn spec_skip_section_expecting(data: Seq<u8>, pos: int, id: u32) -> Result<
    (Header, int),
    ErrorV,
> {
    match spec_read_header_expecting(data, pos, id) {
        Ok((h, p)) => match spec_advance(data, p, h.size) {
            Ok(p2) => Ok((h, p2)),
            Err(e) => Err(e),
        },
        Err(e) => Err(e),
    }
}

/// What `Stream::find_next` yields: the first section of type `id` at or
/// after `pos`, scanning header by header and skipping every non-matching
/// payload.  The scan stops, and the requested section counts as missing,
/// at a zero-id terminator header, at the end of the data, and at a declared
/// payload size that overruns the remaining input.
pub open spec fn spec_find_next(data: Seq<u8>, pos: int, id: u32) -> Result<(Header, int), ErrorV>
    decreases data.len() - pos,
{
    if pos + 12 > data.len() {
        Err(ErrorV::SectionNotFound(id))
    } else {
        let h = header_at(data, pos);
        if h.id == 0 {
            Err(ErrorV::SectionNotFound(id))
        } else if h.id == id {
            Ok((h, pos + 12))
        } else if pos + 12 + h.size > data.len() {
            Err(ErrorV::SectionNotFound(id))
        } else {
            spec_find_next(data, pos + 12 + h.size, id)
        }
    }
}

/// The stream holds, starting at `pos`, consecutive sections whose headers
/// carry exactly these (type id, payload size) pairs.
pub open spec fn chunk_list_at(data: Seq<u8>, pos: int, hs: Seq<(u32, u32)>) -> bool
    decreases hs.len(),
{
    if hs.len() == 0 {
        true
    } else {
        &&& pos + 12 + hs[0].1 <= data.len()
        &&& header_at(data, pos).id == hs[0].0
        &&& header_at(data, pos).size == hs[0].1
        &&& chunk_list_at(data, pos + 12 + hs[0].1, hs.subrange(1, hs.len() as int))
    }
}

/// Start position of the `j`-th section of such a list.
pub open spec fn chunk_start(pos: int, hs: Seq<(u32, u32)>, j: int) -> int
    decreases j,
{
    if j <= 0 {
        pos
    } else {
        chunk_start(pos + 12 + hs[0].1, hs.subrange(1, hs.len() as int), j - 1)
    }
}

/// Law: over a list of sections of which exactly the `j`-th carries type
/// `id` (no earlier one carries `id`, and no earlier one is a zero-id
/// terminator), a forward scan for `id` succeeds and lands exactly at the
/// start of that section's payload, whatever the ids and sizes of the
/// sections before it.
pub proof fn lemma_find_next_locates(
    data: Seq<u8>,
    pos: int,
    hs: Seq<(u32, u32)>,
    id: u32,
    j: int,
)
    requires
        chunk_list_at(data, pos, hs),
        0 <= j < hs.len(),
        hs[j].0 == id,
        id != 0,
        forall|k: int| 0 <= k < j ==> (#[trigger] hs[k].0) != id && hs[k].0 != 0,
    ensures
        spec_find_next(data, pos, id) matches Ok((h, p)) && h.id == id && h.size == hs[j].1 && p
            == chunk_start(pos, hs, j) + 12,
    decreases j,
{
    lemma_chunk_list_bounds(data, pos, hs, j);
    if j == 0 {
        assert(pos + 12 <= data.len());
    } else {
        let tail = hs.subrange(1, hs.len() as int);
        assert(forall|k: int|
            0 <= k < j - 1 ==> (#[trigger] tail[k].0) != id && tail[k].0 != 0) by {
            assert(forall|k: int| 0 <= k < j - 1 ==> tail[k] == hs[k + 1]);
        }
        assert(tail[j - 1] == hs[j]);
        lemma_find_next_locates(data, pos + 12 + hs[0].1, tail, id, j - 1);
    }
}

/// The first `j + 1` sections of a chunk list all fit inside the data.
proof fn lemma_chunk_list_bounds(data: Seq<u8>, pos: int, hs: Seq<(u32, u32)>, j: int)
    requires
        chunk_list_at(data, pos, hs),
        0 <= j < hs.len(),
    ensures
        pos <= chunk_start(pos, hs, j),
        chunk_start(pos, hs, j) + 12 + hs[j].1 <= data.len(),
    decreases j,
{
    if j > 0 {
        let tail = hs.subrange(1, hs.len() as int);
        assert(tail[j - 1] == hs[j]);
        lemma_chunk_list_bounds(data, pos + 12 + hs[0].1, tail, j - 1);
    }
}

/// Mathematical image of a `Stream`: the whole byte buffer and the cursor.
pub struct StreamV {
    pub data: Seq<u8>,
    pub pos: int,
}

/// A seekable cursor over an owned byte buffer.
pub struct Stream {
    data: Vec<u8>,
    pos: usize,
}

impl View for Stream {
    type V = StreamV;

    closed spec fn view(&self) -> StreamV {
        StreamV { data: self.data@, pos: self.pos as int }
    }
}

impl Stream {
    /// The cursor never sits past the end of the buffer.
    pub open spec fn wf(&self) -> bool {
        self@.pos <= self@.data.len()
    }

    /// A stream over `data` with the cursor at the start.
    pub fn new(data: Vec<u8>) -> (r: Stream)
        ensures
            r.wf(),
            r@.data == data@,
            r@.pos == 0,
    {
        Stream { data, pos: 0 }
    }

    /// Current cursor position.
    pub fn pos(&self) -> (r: usize)
        ensures
            r == self@.pos,
    {
        self.pos
    }

    /// Total length of the underlying buffer.
    pub fn len(&self) -> (r: usize)
        ensures
            r == self@.data.len(),
    {
        self.data.len()
    }

    /// Move the cursor to an absolute position (used to restore a saved one).
    pub fn seek(&mut self, pos: usize)
        requires
            pos <= old(self)@.data.len(),
        ensures
            final(self).wf(),
            final(self)@.data == old(self)@.data,
            final(self)@.pos == pos,
    {
        self.pos = pos;
    }

    /// Give the underlying buffer back, consuming the stream.
    pub fn into_inner(self) -> (r: Vec<u8>)
        ensures
            r@ == self@.data,
    {
        self.data
    }

    /// Bytes remaining from the cursor to the end of the buffer.
    pub fn remaining(&self) -> (r: usize)
        requires
            self.wf(),
        ensures
            r == self@.data.len() - self@.pos,
    {
        self.data.len() - self.pos
    }

    /// One byte.
    pub fn read_u8(&mut self) -> (r: Result<u8, Error>)
        requires
            old(self).wf(),
        ensures
            final(self).wf(),
            final(self)@.data == old(self)@.data,
            match r {
                Ok(b) => old(self)@.pos + 1 <= final(self)@.data.len() && b == final(self)@.data[old(self)@.pos]
                    && final(self)@.pos == old(self)@.pos + 1,
                Err(e) => e@ == ErrorV::UnexpectedEndOfData && old(self)@.pos + 1
                    > final(self)@.data.len() && final(self)@.pos == old(self)@.pos,
            },
    {
        if self.data.len() - self.pos < 1 {
            return Err(Error::UnexpectedEndOfData);
        }
        let b = self.data[self.pos];
        self.pos = self.pos + 1;
        Ok(b)
    }

    /// Little-endian 16-bit word.
    pub fn read_u16(&mut self) -> (r: Result<u16, Error>)
        requires
            old(self).wf(),
        ensures
            final(self).wf(),
            final(self)@.data == old(self)@.data,
            match r {
                Ok(w) => old(self)@.pos + 2 <= final(self)@.data.len() && w == le16(
                    final(self)@.data,
                    old(self)@.pos,
                ) && final(self)@.pos == old(self)@.pos + 2,
                Err(e) => e@ == ErrorV::UnexpectedEndOfData && old(self)@.pos + 2
                    > final(self)@.data.len() && final(self)@.pos == old(self)@.pos,
            },
    {
        if self.data.len() - self.pos < 2 {
            return Err(Error::UnexpectedEndOfData);
        }
        let b0 = self.data[self.pos] as u16;
        let b1 = self.data[self.pos + 1] as u16;
        self.pos = self.pos + 2;
        Ok(b0 + b1 * 0x100)
    }

    /// Little-endian 32-bit word.
    pub fn read_u32(&mut self) -> (r: Result<u32, Error>)
        requires
            old(self).wf(),
        ensures
            final(self).wf(),
            final(self)@.data == old(self)@.data,
            match r {
                Ok(w) => old(self)@.pos + 4 <= final(self)@.data.len() && w == le32(
                    final(self)@.data,
                    old(self)@.pos,
                ) && final(self)@.pos == old(self)@.pos + 4,
                Err(e) => e@ == ErrorV::UnexpectedEndOfData && old(self)@.pos + 4
                    > final(self)@.data.len() && final(self)@.pos == old(self)@.pos,
            },
    {
        if self.data.len() - self.pos < 4 {
            return Err(Error::UnexpectedEndOfData);
        }
        let b0 = self.data[self.pos] as u32;
        let b1 = self.data[self.pos + 1] as u32;
        let b2 = self.data[self.pos + 2] as u32;
        let b3 = self.data[self.pos + 3] as u32;
        self.pos = self.pos + 4;
        Ok(b0 + b1 * 0x100 + b2 * 0x10000 + b3 * 0x1000000)
    }

    /// `n` raw bytes.
    pub fn read_bytes(&mut self, n: usize) -> (r: Result<Vec<u8>, Error>)
        requires
            old(self).wf(),
        ensures
            final(self).wf(),
            final(self)@.data == old(self)@.data,
            match r {
                Ok(v) => old(self)@.pos + n <= final(self)@.data.len() && v@ == final(self)@.data.subrange(
                    old(self)@.pos,
                    old(self)@.pos + n,
                ) && final(self)@.pos == old(self)@.pos + n,
                Err(e) => e@ == ErrorV::UnexpectedEndOfData && old(self)@.pos + n
                    > final(self)@.data.len() && final(self)@.pos == old(self)@.pos,
            },
    {
        if self.data.len() - self.pos < n {
            return Err(Error::UnexpectedEndOfData);
        }
        let start = self.pos;
        let mut v: Vec<u8> = Vec::new();
        let mut i: usize = 0;
        while i < n
            invariant
                self.wf(),
                start == self@.pos,
                i <= n,
                start + n <= self@.data.len(),
                start + n <= usize::MAX,
                v@ == self@.data.subrange(start as int, start + i),
            decreases n - i,
        {
            assert(start + i < self@.data.len());
            let b = self.data[start + i];
            v.push(b);
            proof {
                assert(self@.data.subrange(start as int, start + i + 1) =~= self@.data.subrange(
                    start as int,
                    start + i,
                ).push(b));
            }
            i = i + 1;
        }
        self.pos = start + n;
        Ok(v)
    }

    /// Read a section header: type id, payload size, version.
    pub fn read_header(&mut self) -> (r: Result<Header, Error>)
        requires
            old(self).wf(),
        ensures
            final(self).wf(),
            final(self)@.data == old(self)@.data,
            match r {
                Ok(h) => spec_read_header(final(self)@.data, old(self)@.pos) == Ok::<_, ErrorV>(
                    (h, final(self)@.pos),
                ),
                Err(e) => spec_read_header(final(self)@.data, old(self)@.pos) == Err::<(Header, int), _>(
                    e@,
                ) && final(self)@.pos == old(self)@.pos,
            },
    {
        if self.data.len() - self.pos < 12 {
            return Err(Error::UnexpectedEndOfData);
        }
        let id = match self.read_u32() {
            Ok(w) => w,
            Err(e) => {
                return Err(e);
            },
        };
        let size = match self.read_u32() {
            Ok(w) => w,
            Err(e) => {
                return Err(e);
            },
        };
        let version = match self.read_u32() {
            Ok(w) => w,
            Err(e) => {
                return Err(e);
            },
        };
        Ok(Header { id, size, version })
    }

    /// Read a section header that must carry the given type id; a header of
    /// another type is a `SectionMismatch`.
    pub fn read_header_expecting(&mut self, id: u32) -> (r: Result<Header, Error>)
        requires
            old(self).wf(),
        ensures
            final(self).wf(),
            final(self)@.data == old(self)@.data,
            match r {
                Ok(h) => spec_read_header_expecting(final(self)@.data, old(self)@.pos, id) == Ok::<
                    _,
                    ErrorV,
                >((h, final(self)@.pos)),
                Err(e) => spec_read_header_expecting(final(self)@.data, old(self)@.pos, id) == Err::<
                    (Header, int),
                    _,
                >(e@),
            },
    {
        match self.read_header() {
            Ok(h) => {
                if h.id != id {
                    Err(Error::SectionMismatch { expected: id, found: h.id })
                } else {
                    Ok(h)
                }
            },
            Err(e) => Err(e),
        }
    }

    /// Advance the cursor past the payload that `h` declares, without
    /// buffering it.  Together with `read_header` this leaves the cursor
    /// exactly `12 + h.size` bytes past where the header started.
    pub fn skip_payload(&mut self, h: Header) -> (r: Result<(), Error>)
        requires
            old(self).wf(),
        ensures
            final(self).wf(),
            final(self)@.data == old(self)@.data,
            match r {
                Ok(()) => spec_advance(final(self)@.data, old(self)@.pos, h.size) == Ok::<_, ErrorV>(
                    final(self)@.pos as int,
                ),
                Err(e) => spec_advance(final(self)@.data, old(self)@.pos, h.size) == Err::<int, _>(e@)
                    && final(self)@.pos == old(self)@.pos,
            },
    {
        let n = h.size as usize;
        if self.data.len() - self.pos < n {
            return Err(Error::UnexpectedEndOfData);
        }
        self.pos = self.pos + n;
        Ok(())
    }

    /// Read one header and skip its payload; the result is the total number
    /// of bytes passed over, always `12 + size`.  On success the cursor
    /// stands exactly `12 + size` bytes past where the header started.
    pub fn skip_section(&mut self) -> (r: Result<u64, Error>)
        requires
            old(self).wf(),
        ensures
            final(self).wf(),
            final(self)@.data == old(self)@.data,
            match r {
                Ok(n) => spec_skip_section(final(self)@.data, old(self)@.pos) matches Ok((h, p)) && p
                    == final(self)@.pos && n == 12 + h.size && final(self)@.pos == old(self)@.pos + 12 + h.size,
                Err(e) => spec_skip_section(final(self)@.data, old(self)@.pos) == Err::<(Header, int), _>(
                    e@,
                ),
            },
    {
        let h = match self.read_header() {
            Ok(h) => h,
            Err(e) => {
                return Err(e);
            },
        };
        match self.skip_payload(h) {
            Ok(()) => Ok(0xC + h.size as u64),
            Err(e) => Err(e),
        }
    }

    /// As `skip_section`, but the header must carry the given type id.
    pub fn skip_section_expecting(&mut self, id: u32) -> (r: Result<u64, Error>)
        requires
            old(self).wf(),
        ensures
            final(self).wf(),
            final(self)@.data == old(self)@.data,
            match r {
                Ok(n) => spec_skip_section_expecting(final(self)@.data, old(self)@.pos, id) matches Ok(
                    (h, p),
                ) && p == final(self)@.pos && n == 12 + h.size,
                Err(e) => spec_skip_section_expecting(final(self)@.data, old(self)@.pos, id) == Err::<
                    (Header, int),
                    _,
                >(e@),
            },
    {
        let h = match self.read_header_expecting(id) {
            Ok(h) => h,
            Err(e) => {
                return Err(e);
            },
        };
        match self.skip_payload(h) {
            Ok(()) => Ok(0xC + h.size as u64),
            Err(e) => Err(e),
        }
    }

    /// Scan forward for the next section of type `id`, skipping every
    /// non-matching section's payload.  On success the cursor stands at the
    /// start of the found section's payload.  The scan fails with
    /// `SectionNotFound` on a zero-id terminator header, at the end of the
    /// input, and on a declared size that overruns the remaining input.
    pub fn find_next(&mut self, id: u32) -> (r: Result<Header, Error>)
        requires
            old(self).wf(),
        ensures
            final(self).wf(),
            final(self)@.data == old(self)@.data,
            match r {
                Ok(h) => spec_find_next(final(self)@.data, old(self)@.pos, id) == Ok::<_, ErrorV>(
                    (h, final(self)@.pos),
                ),
                Err(e) => spec_find_next(final(self)@.data, old(self)@.pos, id) == Err::<(Header, int), _>(
                    e@,
                ),
            },
    {
        loop
            invariant
                self.wf(),
                self@.data == old(self)@.data,
                spec_find_next(self@.data, old(self)@.pos, id) == spec_find_next(
                    self@.data,
                    self@.pos as int,
                    id,
                ),
            decreases self@.data.len() - self@.pos,
        {
            if self.data.len() - self.pos < 12 {
                return Err(Error::SectionNotFound(id));
            }
            let saved = self.pos;
            let h = match self.read_header() {
                Ok(h) => h,
                Err(_) => {
                    return Err(Error::SectionNotFound(id));
                },
            };
            if h.id == 0 {
                return Err(Error::SectionNotFound(id));
            }
            if h.id == id {
                return Ok(h);
            }
            if (self.data.len() - self.pos) < h.size as usize {
                return Err(Error::SectionNotFound(id));
            }
            self.pos = self.pos + h.size as usize;
        }
    }
}

/// One whole section buffered in memory: its header and its raw payload.
#[derive(Debug)]
pub struct SectionBuf {
    pub header: Header,
    pub data: Vec<u8>,
}

/// Mathematical image of a `SectionBuf`.
pub struct SectionBufV {
    pub header: Header,
    pub data: Seq<u8>,
}

impl View for SectionBuf {
    type V = SectionBufV;

    open spec fn view(&self) -> SectionBufV {
        SectionBufV { header: self.header, data: self.data@ }
    }
}

/// What `SectionBuf::read` yields.
pub open spec fn spec_read_section_buf(data: Seq<u8>, pos: int) -> Result<(SectionBufV, int), ErrorV> {
    match spec_read_header(data, pos) {
        Ok((h, p)) => if p + h.size <= data.len() {
            Ok((SectionBufV { header: h, data: data.subrange(p, p + h.size) }, p + h.size))
        } else {
            Err(ErrorV::UnexpectedEndOfData)
        },
        Err(e) => Err(e),
    }
}

/// What `SectionBuf::read_section_id` yields.
pub open spec fn spec_read_section_buf_id(data: Seq<u8>, pos: int, id: u32) -> Result<
    (SectionBufV, int),
    ErrorV,
> {
    match spec_read_header_expecting(data, pos, id) {
        Ok((h, p)) => if p + h.size <= data.len() {
            Ok((SectionBufV { header: h, data: data.subrange(p, p + h.size) }, p + h.size))
        } else {
            Err(ErrorV::UnexpectedEndOfData)
        },
        Err(e) => Err(e),
    }
}

impl SectionBuf {
    /// Read the next section whole: header plus buffered payload.
    pub fn read(rws: &mut Stream) -> (r: Result<SectionBuf, Error>)
        requires
            old(rws).wf(),
        ensures
            final(rws).wf(),
            final(rws)@.data == old(rws)@.data,
            match r {
                Ok(sb) => spec_read_section_buf(final(rws)@.data, old(rws)@.pos) == Ok::<_, ErrorV>(
                    (sb@, final(rws)@.pos as int),
                ),
                Err(e) => spec_read_section_buf(final(rws)@.data, old(rws)@.pos) == Err::<
                    (SectionBufV, int),
                    _,
                >(e@),
            },
    {
        let header = match rws.read_header() {
            Ok(h) => h,
            Err(e) => {
                return Err(e);
            },
        };
        let data = match rws.read_bytes(header.size as usize) {
            Ok(v) => v,
            Err(e) => {
                return Err(e);
            },
        };
        Ok(SectionBuf { header, data })
    }

    /// Read the next section whole, requiring the given type id.
    pub fn read_section_id(rws: &mut Stream, id: u32) -> (r: Result<SectionBuf, Error>)
        requires
            old(rws).wf(),
        ensures
            final(rws).wf(),
            final(rws)@.data == old(rws)@.data,
            match r {
                Ok(sb) => spec_read_section_buf_id(final(rws)@.data, old(rws)@.pos, id) == Ok::<
                    _,
                    ErrorV,
                >((sb@, final(rws)@.pos as int)) && sb.header.id == id,
                Err(e) => spec_read_section_buf_id(final(rws)@.data, old(rws)@.pos, id) == Err::<
                    (SectionBufV, int),
                    _,
                >(e@),
            },
    {
        let header = match rws.read_header_expecting(id) {
            Ok(h) => h,
            Err(e) => {
                return Err(e);
            },
        };
        let data = match rws.read_bytes(header.size as usize) {
            Ok(v) => v,
            Err(e) => {
                return Err(e);
            },
        };
        Ok(SectionBuf { header, data })
    }
}

} // verus!
