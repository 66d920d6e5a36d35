//! The frame hierarchy: an ordered list of rigid transforms with integer
//! parent back-references, decoded into an arena of nodes addressed by
//! index.  Parent edges always point at an earlier entry, so the hierarchy
//! can hold no cycle; names arrive afterwards through a per-frame plugin
//! region and never take part in the structural linking.

use vstd::prelude::*;

use crate::{Error, ErrorV};
use crate::basic::{spec_parse_matrix, Matrix};
use crate::section::{Struct, ID_EXTENSION, ID_STRUCT};
use crate::stream::{le32, spec_read_header, spec_read_header_expecting, Stream};

verus! {

pub const ID_FRAME_LIST: u32 = 0x000E;

pub const ID_NODE_NAME: u32 = 0x0253F2FE;

/// One node of the hierarchy: a local transform, the index of its parent
/// among the earlier entries of the same list (or none, for a root), and a
/// name assigned by a later extension pass (empty until then).
#[derive(Debug)]
pub struct Frame {
    pub matrix: Matrix,
    pub parent: Option<usize>,
    pub name: Vec<u8>,
}

/// Mathematical image of a `Frame`.
pub struct FrameV {
    pub matrix: Matrix,
    pub parent: Option<int>,
    pub name: Seq<u8>,
}

impl View for Frame {
    type V = FrameV;

    open spec fn view(&self) -> FrameV {
        FrameV {
            matrix: self.matrix,
            parent: match self.parent {
                Some(p) => Some(p as int),
                None => None,
            },
            name: self.name@,
        }
    }
}

/// An ordered list of frames; parent references index into it.
#[derive(Debug)]
pub struct FrameList(pub Vec<Frame>);

impl View for FrameList {
    type V = Seq<FrameV>;

    open spec fn view(&self) -> Seq<FrameV> {
        Seq::new(self.0@.len(), |i: int| self.0@[i]@)
    }
}

/// Every parent reference points at a strictly earlier entry.
pub open spec fn frames_wf(frames: Seq<FrameV>) -> bool {
    forall|i: int|
        0 <= i < frames.len() ==> match #[trigger] frames[i].parent {
            Some(p) => 0 <= p < i,
            None => true,
        }
}

/// The node-name plugin: a name to be attached to a frame.
#[derive(Debug)]
pub struct NodeNamePlg(pub Vec<u8>);

impl View for NodeNamePlg {
    type V = Seq<u8>;

    open spec fn view(&self) -> Seq<u8> {
        self.0@
    }
}

/// What one fixed-size frame record holds: a matrix, then a signed parent
/// index (kept as its raw word), then an ignored flags word.
pub open spec fn spec_parse_frame_record(data: Seq<u8>, pos: int) -> Result<((Matrix, u32), int), ErrorV> {
    match spec_parse_matrix(data, pos) {
        Ok((m, p)) => if p + 8 <= data.len() {
            Ok(((m, le32(data, p)), p + 8))
        } else {
            Err(ErrorV::UnexpectedEndOfData)
        },
        Err(e) => Err(e),
    }
}

/// Whether a raw parent word is negative under two's complement.
pub open spec fn parent_is_root(word: u32) -> bool {
    word >= 0x8000_0000
}

/// Parse `n` frame records, linking each parent as it is built: a
/// non-negative parent index must point into the already-built prefix,
/// anything else is an `InvalidBackReference`.  Names stay empty here.
pub open spec fn spec_parse_frames(data: Seq<u8>, pos: int, n: nat, acc: Seq<FrameV>) -> Result<
    (Seq<FrameV>, int),
    ErrorV,
>
    decreases n,
{
    if n == 0 {
        Ok((acc, pos))
    } else {
        match spec_parse_frame_record(data, pos) {
            Ok(((m, word), p)) => {
                if parent_is_root(word) {
                    spec_parse_frames(
                        data,
                        p,
                        (n - 1) as nat,
                        acc.push(FrameV { matrix: m, parent: None, name: Seq::empty() }),
                    )
                } else if word < acc.len() {
                    spec_parse_frames(
                        data,
                        p,
                        (n - 1) as nat,
                        acc.push(FrameV { matrix: m, parent: Some(word as int), name: Seq::empty() }),
                    )
                } else {
                    Err(ErrorV::InvalidBackReference)
                }
            },
            Err(e) => Err(e),
        }
    }
}

/// Scan one extension region for node-name plugins, consuming the whole
/// region chunk by chunk; the first name found is kept, later chunks are
/// still consumed.  A declared chunk size that overruns the region or the
/// input fails the scan rather than truncating it.  A region of declared
/// size zero yields no name and reads no inner header at all.
pub open spec fn spec_scan_names(data: Seq<u8>, pos: int, end: int, found: Option<Seq<u8>>) -> Result<
    (Option<Seq<u8>>, int),
    ErrorV,
>
    decreases end - pos,
{
    if pos >= end {
        Ok((found, pos))
    } else if pos + 12 > end {
        Err(ErrorV::UnexpectedEndOfData)
    } else {
        match spec_read_header(data, pos) {
            Ok((h, p)) => if p + h.size > data.len() || p + h.size > end {
                Err(ErrorV::UnexpectedEndOfData)
            } else {
                let found2 = if h.id == ID_NODE_NAME && found is None {
                    Some(data.subrange(p, p + h.size))
                } else {
                    found
                };
                spec_scan_names(data, p + h.size, end, found2)
            },
            Err(e) => Err(e),
        }
    }
}

/// What reading one frame's extension region yields: the frame's plugin
/// name, if any.
pub open spec fn spec_read_name_ext(data: Seq<u8>, pos: int) -> Result<(Option<Seq<u8>>, int), ErrorV> {
    match spec_read_header_expecting(data, pos, ID_EXTENSION) {
        Ok((h, p)) => spec_scan_names(data, p, p + h.size, None),
        Err(e) => Err(e),
    }
}

/// Law: an extension region of declared size zero yields no name and the
/// scan reads no inner header; the cursor ends right after the region
/// header.
pub proof fn lemma_empty_region_has_no_name(data: Seq<u8>, pos: int)
    requires
        spec_read_header_expecting(data, pos, ID_EXTENSION) matches Ok((h, _)) && h.size == 0,
    ensures
        spec_read_name_ext(data, pos) == Ok::<_, ErrorV>((None::<Seq<u8>>, pos + 12)),
{
}

/// Parse the extension region of each of `n` frames in list order,
/// collecting each frame's optional plugin name.
pub open spec fn spec_read_name_exts(data: Seq<u8>, pos: int, n: nat, acc: Seq<Option<Seq<u8>>>) -> Result<
    (Seq<Option<Seq<u8>>>, int),
    ErrorV,
>
    decreases n,
{
    if n == 0 {
        Ok((acc, pos))
    } else {
        match spec_read_name_ext(data, pos) {
            Ok((opt, p)) => spec_read_name_exts(data, p, (n - 1) as nat, acc.push(opt)),
            Err(e) => Err(e),
        }
    }
}

/// Overwrite each frame's name with its plugin name where one was found;
/// structure and transforms stay untouched.
pub open spec fn apply_names(frames: Seq<FrameV>, names: Seq<Option<Seq<u8>>>) -> Seq<FrameV> {
    Seq::new(
        frames.len(),
        |i: int|
            FrameV {
                matrix: frames[i].matrix,
                parent: frames[i].parent,
                name: match names[i] {
                    Some(nm) => nm,
                    None => frames[i].name,
                },
            },
    )
}

/// What decoding a whole frame list yields: a count, that many records
/// linked front to back, then one extension region per frame carrying the
/// names.
pub open spec fn spec_parse_framelist(data: Seq<u8>, pos: int) -> Result<(Seq<FrameV>, int), ErrorV> {
    match spec_read_header_expecting(data, pos, ID_FRAME_LIST) {
        Ok((_, p0)) => match spec_read_header_expecting(data, p0, ID_STRUCT) {
            Ok((_, p1)) => if p1 + 4 <= data.len() {
                let n = le32(data, p1);
                match spec_parse_frames(data, p1 + 4, n as nat, Seq::empty()) {
                    Ok((frames, p2)) => match spec_read_name_exts(data, p2, n as nat, Seq::empty()) {
                        Ok((names, p3)) => Ok((apply_names(frames, names), p3)),
                        Err(e) => Err(e),
                    },
                    Err(e) => Err(e),
                }
            } else {
                Err(ErrorV::UnexpectedEndOfData)
            },
            Err(e) => Err(e),
        },
        Err(e) => Err(e),
    }
}

/// Frames built by `spec_parse_frames` always link backwards.
proof fn lemma_parse_frames_wf(data: Seq<u8>, pos: int, n: nat, acc: Seq<FrameV>)
    requires
        frames_wf(acc),
        spec_parse_frames(data, pos, n, acc) is Ok,
    ensures
        frames_wf(spec_parse_frames(data, pos, n, acc)->Ok_0.0),
    decreases n,
{
    if n == 0 {
    } else {
        match spec_parse_frame_record(data, pos) {
            Ok(((m, word), p)) => {
                if parent_is_root(word) {
                    let acc2 = acc.push(FrameV { matrix: m, parent: None, name: Seq::empty() });
                    assert(frames_wf(acc2));
                    lemma_parse_frames_wf(data, p, (n - 1) as nat, acc2);
                } else if word < acc.len() {
                    let acc2 = acc.push(
                        FrameV { matrix: m, parent: Some(word as int), name: Seq::empty() },
                    );
                    assert(frames_wf(acc2));
                    lemma_parse_frames_wf(data, p, (n - 1) as nat, acc2);
                }
            },
            Err(_) => {},
        }
    }
}

/// Renaming frames keeps their backward linking.
proof fn lemma_apply_names_wf(frames: Seq<FrameV>, names: Seq<Option<Seq<u8>>>)
    requires
        frames_wf(frames),
    ensures
        frames_wf(apply_names(frames, names)),
{
    assert forall|i: int|
        0 <= i < apply_names(frames, names).len() implies match #[trigger] apply_names(
        frames,
        names,
    )[i].parent {
        Some(p) => 0 <= p < i,
        None => true,
    } by {
        assert(apply_names(frames, names)[i].parent == frames[i].parent);
    }
}

impl NodeNamePlg {
    /// Type id of the node-name plugin.
    pub fn section_id() -> (r: u32)
        ensures
            r == ID_NODE_NAME,
    {
        ID_NODE_NAME
    }

    /// Read one node-name plugin chunk: its header and its raw name bytes.
    pub fn read(rws: &mut Stream) -> (r: Result<NodeNamePlg, Error>)
        requires
            old(rws).wf(),
        ensures
            final(rws).wf(),
            final(rws)@.data == old(rws)@.data,
            match r {
                Ok(plg) => spec_read_header_expecting(final(rws)@.data, old(rws)@.pos, ID_NODE_NAME)
                    matches Ok((h, p)) && p + h.size == final(rws)@.pos && plg@
                    == final(rws)@.data.subrange(p, p + h.size),
                Err(e) => {
                    ||| spec_read_header_expecting(final(rws)@.data, old(rws)@.pos, ID_NODE_NAME)
                        == Err::<(crate::stream::Header, int), _>(e@)
                    ||| (spec_read_header_expecting(final(rws)@.data, old(rws)@.pos, ID_NODE_NAME)
                        matches Ok((h, p)) && p + h.size > final(rws)@.data.len() && e@
                        == ErrorV::UnexpectedEndOfData)
                },
            },
    {
        let h = match rws.read_header_expecting(ID_NODE_NAME) {
            Ok(h) => h,
            Err(e) => {
                return Err(e);
            },
        };
        let bytes = match rws.read_bytes(h.size as usize) {
            Ok(v) => v,
            Err(e) => {
                return Err(e);
            },
        };
        Ok(NodeNamePlg(bytes))
    }
}

/// Read one frame's extension region, keeping the first node-name plugin
/// found and consuming the whole region.  A region of declared size zero
/// yields `None` without reading any inner header.
#[verifier::loop_isolation(false)]
pub fn read_name_ext(rws: &mut Stream) -> (r: Result<Option<Vec<u8>>, Error>)
    requires
        old(rws).wf(),
    ensures
        final(rws).wf(),
        final(rws)@.data == old(rws)@.data,
        match r {
            Ok(opt) => spec_read_name_ext(final(rws)@.data, old(rws)@.pos) matches Ok((o, p)) && p
                == final(rws)@.pos && o == match opt {
                Some(v) => Some(v@),
                None => None::<Seq<u8>>,
            },
            Err(e) => spec_read_name_ext(final(rws)@.data, old(rws)@.pos) == Err::<
                (Option<Seq<u8>>, int),
                _,
            >(e@),
        },
{
    let h = match rws.read_header_expecting(ID_EXTENSION) {
        Ok(h) => h,
        Err(e) => {
            return Err(e);
        },
    };
    let ghost region_end = rws@.pos + h.size;
    let mut region_left: u64 = h.size as u64;
    let mut found: Option<Vec<u8>> = None;
    loop
        invariant
            rws.wf(),
            rws@.data == old(rws)@.data,
            rws@.pos + region_left == region_end,
            spec_read_name_ext(rws@.data, old(rws)@.pos) == spec_scan_names(
                rws@.data,
                rws@.pos as int,
                region_end,
                match found {
                    Some(v) => Some(v@),
                    None => None::<Seq<u8>>,
                },
            ),
        decreases region_left,
    {
        if region_left == 0 {
            return Ok(found);
        }
        if region_left < 12 {
            return Err(Error::UnexpectedEndOfData);
        }
        let ih = match rws.read_header() {
            Ok(h) => h,
            Err(e) => {
                return Err(e);
            },
        };
        if ih.size as u64 > region_left - 12 {
            return Err(Error::UnexpectedEndOfData);
        }
        if ih.id == ID_NODE_NAME && found.is_none() {
            let bytes = match rws.read_bytes(ih.size as usize) {
                Ok(v) => v,
                Err(e) => {
                    return Err(e);
                },
            };
            found = Some(bytes);
        } else {
            match rws.skip_payload(ih) {
                Ok(()) => (),
                Err(e) => {
                    return Err(e);
                },
            }
        }
        region_left = region_left - 12 - ih.size as u64;
    }
}

impl Frame {
    /// Read one frame record, linking its parent against the `built`
    /// already-decoded earlier entries: a non-negative parent index must
    /// point below `built`, a negative one means root.
    pub fn read(rws: &mut Stream, built: usize) -> (r: Result<Frame, Error>)
        requires
            old(rws).wf(),
        ensures
            final(rws).wf(),
            final(rws)@.data == old(rws)@.data,
            match r {
                Ok(f) => spec_parse_frame_record(final(rws)@.data, old(rws)@.pos) matches Ok(
                    ((m, word), p),
                ) && p == final(rws)@.pos && f.matrix == m && f@.name == Seq::<u8>::empty()
                    && !(word < built && !parent_is_root(word) && f.parent != Some(word as usize))
                    && f@.parent == (if parent_is_root(word) {
                    None::<int>
                } else {
                    Some(word as int)
                }) && (parent_is_root(word) || word < built),
                Err(e) => {
                    ||| spec_parse_frame_record(final(rws)@.data, old(rws)@.pos) == Err::<
                        ((Matrix, u32), int),
                        _,
                    >(e@)
                    ||| (spec_parse_frame_record(final(rws)@.data, old(rws)@.pos) matches Ok(
                        ((m, word), p),
                    ) && !parent_is_root(word) && word >= built && e@
                        == ErrorV::InvalidBackReference)
                },
            },
    {
        let matrix = match Matrix::read(rws) {
            Ok(m) => m,
            Err(e) => {
                return Err(e);
            },
        };
        let word = match rws.read_u32() {
            Ok(w) => w,
            Err(e) => {
                return Err(e);
            },
        };
        let _flags = match rws.read_u32() {
            Ok(w) => w,
            Err(e) => {
                return Err(e);
            },
        };
        if word >= 0x8000_0000 {
            Ok(Frame { matrix, parent: None, name: Vec::new() })
        } else if (word as usize) < built {
            Ok(Frame { matrix, parent: Some(word as usize), name: Vec::new() })
        } else {
            Err(Error::InvalidBackReference)
        }
    }
}

/// The chain of local transforms from the root of `i`'s parent chain down
/// to `i` itself; the world transform of frame `i` is the product of these
/// factors in order.  A frame with no parent contributes only itself.
pub open spec fn world_chain_spec(frames: Seq<FrameV>, i: int) -> Seq<Matrix>
    decreases i,
{
    if 0 <= i < frames.len() {
        match frames[i].parent {
            Some(p) => if 0 <= p < i {
                world_chain_spec(frames, p).push(frames[i].matrix)
            } else {
                seq![frames[i].matrix]
            },
            None => seq![frames[i].matrix],
        }
    } else {
        Seq::empty()
    }
}

impl FrameList {
    /// Type id of a frame list section.
    pub fn section_id() -> (r: u32)
        ensures
            r == ID_FRAME_LIST,
    {
        ID_FRAME_LIST
    }

    /// Number of frames in the list.
    pub fn len(&self) -> (r: usize)
        ensures
            r == self@.len(),
    {
        self.0.len()
    }

    /// The frame at `index`, or `None` past the end.
    pub fn get(&self, index: usize) -> (r: Option<&Frame>)
        ensures
            match r {
                Some(f) => index < self@.len() && f@ == self@[index as int],
                None => index >= self@.len(),
            },
    {
        if index < self.0.len() {
            Some(&self.0[index])
        } else {
            None
        }
    }

    /// The factors of frame `i`'s world transform: its local matrix
    /// prefixed by all the local matrices up its parent chain, root first.
    pub fn world_chain(&self, i: usize) -> (r: Vec<Matrix>)
        requires
            frames_wf(self@),
            i < self@.len(),
        ensures
            r@ == world_chain_spec(self@, i as int),
        decreases i,
    {
        let parent = self.0[i].parent;
        let matrix = self.0[i].matrix;
        match parent {
            Some(p) => {
                assert(self@[i as int].parent == Some(p as int));
                assert(0 <= p < i);
                let mut chain = self.world_chain(p);
                chain.push(matrix);
                chain
            },
            None => {
                let mut chain: Vec<Matrix> = Vec::new();
                chain.push(matrix);
                proof {
                    assert(chain@ =~= seq![self@[i as int].matrix]);
                }
                chain
            },
        }
    }

    /// Read a whole frame list: a count, that many records linked as they
    /// are built, then one extension region per frame whose node-name
    /// plugin (if present) overwrites that frame's name.
    #[verifier::loop_isolation(false)]
    pub fn read(rws: &mut Stream) -> (r: Result<FrameList, Error>)
        requires
            old(rws).wf(),
        ensures
            final(rws).wf(),
            final(rws)@.data == old(rws)@.data,
            match r {
                Ok(fl) => spec_parse_framelist(final(rws)@.data, old(rws)@.pos) == Ok::<_, ErrorV>(
                    (fl@, final(rws)@.pos as int),
                ) && frames_wf(fl@),
                Err(e) => spec_parse_framelist(final(rws)@.data, old(rws)@.pos) == Err::<
                    (Seq<FrameV>, int),
                    _,
                >(e@),
            },
    {
        let ghost data = old(rws)@.data;
        match rws.read_header_expecting(ID_FRAME_LIST) {
            Ok(_) => (),
            Err(e) => {
                return Err(e);
            },
        }
        match Struct::read_header(rws) {
            Ok(_) => (),
            Err(e) => {
                return Err(e);
            },
        }
        let nframes = match rws.read_u32() {
            Ok(w) => w,
            Err(e) => {
                return Err(e);
            },
        };
        let ghost rec_start = rws@.pos;
        let n = nframes as usize;
        let mut frames: Vec<Frame> = Vec::new();
        proof {
            assert(Seq::new(frames@.len(), |k: int| frames@[k]@) =~= Seq::<FrameV>::empty());
        }
        let mut i: usize = 0;
        while i < n
            invariant
                rws.wf(),
                rws@.data == data,
                i <= n,
                n == nframes,
                frames@.len() == i,
                forall|k: int| 0 <= k < i ==> (#[trigger] frames@[k])@.name == Seq::<u8>::empty(),
                spec_parse_frames(data, rec_start, nframes as nat, Seq::empty())
                    == spec_parse_frames(
                    data,
                    rws@.pos as int,
                    (nframes - i) as nat,
                    Seq::new(frames@.len(), |k: int| frames@[k]@),
                ),
            decreases n - i,
        {
            let f = match Frame::read(rws, frames.len()) {
                Ok(f) => f,
                Err(e) => {
                    return Err(e);
                },
            };
            let ghost pre = Seq::new(frames@.len(), |k: int| frames@[k]@);
            frames.push(f);
            proof {
                assert(Seq::new(frames@.len(), |k: int| frames@[k]@) =~= pre.push(f@));
            }
            i = i + 1;
        }
        let ghost frames0 = Seq::new(frames@.len(), |k: int| frames@[k]@);
        let ghost ext_start = rws@.pos;
        let mut out: Vec<Frame> = Vec::new();
        let ghost mut names: Seq<Option<Seq<u8>>> = Seq::empty();
        let mut i: usize = 0;
        while i < n
            invariant
                rws.wf(),
                rws@.data == data,
                i <= n,
                n == nframes,
                frames@.len() == n,
                frames0 == Seq::new(frames@.len(), |k: int| frames@[k]@),
                forall|k: int| 0 <= k < n ==> (#[trigger] frames@[k])@.name == Seq::<u8>::empty(),
                names.len() == i,
                out@.len() == i,
                forall|k: int|
                    0 <= k < i ==> (#[trigger] out@[k])@ == apply_names(frames0, names)[k],
                spec_read_name_exts(data, ext_start, nframes as nat, Seq::empty())
                    == spec_read_name_exts(data, rws@.pos as int, (nframes - i) as nat, names),
            decreases n - i,
        {
            let opt = match read_name_ext(rws) {
                Ok(o) => o,
                Err(e) => {
                    return Err(e);
                },
            };
            let ghost ov: Option<Seq<u8>> = match &opt {
                Some(v) => Some(v@),
                None => None,
            };
            let name: Vec<u8> = match opt {
                Some(v) => v,
                None => Vec::new(),
            };
            let f = Frame { matrix: frames[i].matrix, parent: frames[i].parent, name };
            out.push(f);
            proof {
                names = names.push(ov);
            }
            i = i + 1;
        }
        proof {
            assert(Seq::new(out@.len(), |k: int| out@[k]@) =~= apply_names(frames0, names));
            lemma_parse_frames_wf(data, rec_start, nframes as nat, Seq::empty());
            lemma_apply_names_wf(frames0, names);
        }
        Ok(FrameList(out))
    }
}

/// Law: decoding a straight chain, where record `i` has record `i - 1` as
/// its parent and record 0 is the root, makes the world transform of the
/// last record the product of all the local matrices in record order, and
/// the world transform of record 0 its own local matrix alone.
pub proof fn lemma_straight_chain_world(frames: Seq<FrameV>, n: int)
    requires
        1 <= n <= frames.len(),
        forall|i: int|
            0 <= i < n ==> (#[trigger] frames[i].parent) == if i == 0 {
                None::<int>
            } else {
                Some(i - 1)
            },
    ensures
        world_chain_spec(frames, n - 1) == Seq::new(n as nat, |i: int| frames[i].matrix),
        world_chain_spec(frames, 0) == seq![frames[0].matrix],
    decreases n,
{
    if n == 1 {
        assert(frames[0].parent == None::<int>);
        assert(world_chain_spec(frames, 0) =~= Seq::new(1, |i: int| frames[i].matrix));
    } else {
        lemma_straight_chain_world(frames, n - 1);
        assert(frames[n - 1].parent == Some(n - 2));
        assert(world_chain_spec(frames, n - 1) == world_chain_spec(frames, n - 2).push(
            frames[n - 1].matrix,
        ));
        assert(world_chain_spec(frames, n - 1) =~= Seq::new(n as nat, |i: int| frames[i].matrix));
    }
}

} // verus!
