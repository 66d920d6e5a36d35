//! Materials and the deduplicating material list.
//!
//! A material list opens with one signed id per slot: a negative id means
//! "decode a fresh material here", a non-negative id `k` means "this slot
//! reuses the `k`-th material decoded earlier in this same list".  Slots
//! that reuse a material share it; nothing is copied.

use vstd::prelude::*;

use std::rc::Rc;

use crate::{rc_clone, Error, ErrorV};
use crate::basic::Rgba;
use crate::section::{Extension, Struct, ID_EXTENSION, ID_STRUCT};
use crate::session::Instance;
use crate::stream::{le32, spec_read_header_expecting, spec_skip_section_expecting, Stream};
use crate::texture::{Texture, TextureV};

verus! {

pub const ID_MATERIAL: u32 = 0x0007;

pub const ID_MATERIAL_LIST: u32 = 0x0008;

/// Ambient, specular and diffuse reflection coefficients, each carried as
/// its raw 32-bit float encoding.
#[derive(Debug, Copy, Clone, PartialEq, Eq, Structural)]
pub struct SurfaceProperties {
    pub ambient: u32,
    pub specular: u32,
    pub diffuse: u32,
}

/// What `SurfaceProperties::read` yields: three little-endian words.
pub open spec fn spec_parse_surf(data: Seq<u8>, pos: int) -> Result<(SurfaceProperties, int), ErrorV> {
    if pos + 12 <= data.len() {
        Ok(
            (
                SurfaceProperties {
                    ambient: le32(data, pos),
                    specular: le32(data, pos + 4),
                    diffuse: le32(data, pos + 8),
                },
                pos + 12,
            ),
        )
    } else {
        Err(ErrorV::UnexpectedEndOfData)
    }
}

impl SurfaceProperties {
    /// Read the three reflectance coefficient words.
    pub fn read(rws: &mut Stream) -> (r: Result<SurfaceProperties, Error>)
        requires
            old(rws).wf(),
        ensures
            final(rws).wf(),
            final(rws)@.data == old(rws)@.data,
            match r {
                Ok(v) => spec_parse_surf(final(rws)@.data, old(rws)@.pos) == Ok::<_, ErrorV>(
                    (v, final(rws)@.pos as int),
                ),
                Err(e) => spec_parse_surf(final(rws)@.data, old(rws)@.pos) == Err::<
                    (SurfaceProperties, int),
                    _,
                >(e@),
            },
    {
        let ambient = match rws.read_u32() {
            Ok(w) => w,
            Err(e) => {
                return Err(e);
            },
        };
        let specular = match rws.read_u32() {
            Ok(w) => w,
            Err(e) => {
                return Err(e);
            },
        };
        let diffuse = match rws.read_u32() {
            Ok(w) => w,
            Err(e) => {
                return Err(e);
            },
        };
        Ok(SurfaceProperties { ambient, specular, diffuse })
    }
}

/// Surface appearance: a color, reflectance coefficients, and an optional
/// texture resolved against the session's bound dictionary.
#[derive(Debug)]
pub struct Material {
    pub texture: Option<Rc<Texture>>,
    pub color: Rgba,
    pub surf: SurfaceProperties,
}

/// Mathematical image of a `Material`.
pub struct MaterialV {
    pub texture: Option<TextureV>,
    pub color: Rgba,
    pub surf: SurfaceProperties,
}

impl View for Material {
    type V = MaterialV;

    open spec fn view(&self) -> MaterialV {
        MaterialV {
            texture: match &self.texture {
                Some(t) => Some(t@),
                None => None,
            },
            color: self.color,
            surf: self.surf,
        }
    }
}

impl Material {
    /// Type id of a material section.
    pub fn section_id() -> (r: u32)
        ensures
            r == ID_MATERIAL,
    {
        ID_MATERIAL
    }

    /// What decoding one material yields: a flags word (ignored), a color,
    /// an ignored word, a texture-presence flag, the three reflectance
    /// coefficients, then one texture reference iff the flag is set, then a
    /// skipped extension region.
    pub open spec fn spec_parse(
        data: Seq<u8>,
        pos: int,
        dict: Option<crate::texture::TexDictionaryV>,
    ) -> Result<(MaterialV, int), ErrorV> {
        match spec_read_header_expecting(data, pos, ID_MATERIAL) {
            Ok((_, p0)) => match spec_read_header_expecting(data, p0, ID_STRUCT) {
                Ok((_, p1)) => if p1 + 28 <= data.len() {
                    let color = Rgba(data[p1 + 4], data[p1 + 5], data[p1 + 6], data[p1 + 7]);
                    let has_tex = le32(data, p1 + 12) != 0;
                    let surf = SurfaceProperties {
                        ambient: le32(data, p1 + 16),
                        specular: le32(data, p1 + 20),
                        diffuse: le32(data, p1 + 24),
                    };
                    let p2 = p1 + 28;
                    if has_tex {
                        match Texture::spec_parse(data, p2, dict) {
                            Ok((t, p3)) => match spec_skip_section_expecting(
                                data,
                                p3,
                                ID_EXTENSION,
                            ) {
                                Ok((_, p4)) => Ok(
                                    (MaterialV { texture: Some(t), color, surf }, p4),
                                ),
                                Err(e) => Err(e),
                            },
                            Err(e) => Err(e),
                        }
                    } else {
                        match spec_skip_section_expecting(data, p2, ID_EXTENSION) {
                            Ok((_, p4)) => Ok((MaterialV { texture: None, color, surf }, p4)),
                            Err(e) => Err(e),
                        }
                    }
                } else {
                    Err(ErrorV::UnexpectedEndOfData)
                },
                Err(e) => Err(e),
            },
            Err(e) => Err(e),
        }
    }

    /// Read one material; its texture reference, if present, resolves
    /// against the session's bound dictionary.
    pub fn read(rws: &mut Stream, inst: &Instance) -> (r: Result<Material, Error>)
        requires
            old(rws).wf(),
        ensures
            final(rws).wf(),
            final(rws)@.data == old(rws)@.data,
            match r {
                Ok(m) => Material::spec_parse(final(rws)@.data, old(rws)@.pos, inst@) == Ok::<
                    _,
                    ErrorV,
                >((m@, final(rws)@.pos as int)),
                Err(e) => Material::spec_parse(final(rws)@.data, old(rws)@.pos, inst@) == Err::<
                    (MaterialV, int),
                    _,
                >(e@),
            },
    {
        match rws.read_header_expecting(ID_MATERIAL) {
            Ok(_) => (),
            Err(e) => {
                return Err(e);
            },
        }
        match Struct::read_header(rws) {
            Ok(_) => (),
            Err(e) => {
                return Err(e);
            },
        }
        let _flags = match rws.read_u32() {
            Ok(w) => w,
            Err(e) => {
                return Err(e);
            },
        };
        let color = match Rgba::read(rws) {
            Ok(c) => c,
            Err(e) => {
                return Err(e);
            },
        };
        let _unused = match rws.read_u32() {
            Ok(w) => w,
            Err(e) => {
                return Err(e);
            },
        };
        let has_tex = match rws.read_u32() {
            Ok(w) => w,
            Err(e) => {
                return Err(e);
            },
        };
        let surf = match SurfaceProperties::read(rws) {
            Ok(s) => s,
            Err(e) => {
                return Err(e);
            },
        };
        let texture: Option<Rc<Texture>> = if has_tex != 0 {
            match Texture::read(rws, inst) {
                Ok(t) => Some(t),
                Err(e) => {
                    return Err(e);
                },
            }
        } else {
            None
        };
        match Extension::skip_section(rws) {
            Ok(_) => (),
            Err(e) => {
                return Err(e);
            },
        }
        Ok(Material { texture, color, surf })
    }
}

/// A resolved material list: the freshly decoded materials, and one slot
/// per list entry pointing into them.  Two slots holding the same index
/// share one material.
#[derive(Debug)]
pub struct MaterialList {
    pub fresh: Vec<Rc<Material>>,
    pub slots: Vec<usize>,
}

/// Mathematical image of a `MaterialList`.
pub struct MaterialListV {
    pub fresh: Seq<MaterialV>,
    pub slots: Seq<int>,
}

impl View for MaterialList {
    type V = MaterialListV;

    open spec fn view(&self) -> MaterialListV {
        MaterialListV {
            fresh: Seq::new(self.fresh@.len(), |i: int| self.fresh@[i]@),
            slots: Seq::new(self.slots@.len(), |i: int| self.slots@[i] as int),
        }
    }
}

/// Every slot points into the fresh materials.
pub open spec fn matlist_wf(ml: MaterialListV) -> bool {
    forall|k: int| 0 <= k < ml.slots.len() ==> 0 <= #[trigger] ml.slots[k] < ml.fresh.len()
}

/// The material a slot resolves to.
pub open spec fn matlist_entry(ml: MaterialListV, k: int) -> MaterialV {
    ml.fresh[ml.slots[k]]
}

/// Parse `n` raw 32-bit material ids.
pub open spec fn spec_parse_mat_ids(data: Seq<u8>, pos: int, n: nat, acc: Seq<u32>) -> Result<
    (Seq<u32>, int),
    ErrorV,
>
    decreases n,
{
    if n == 0 {
        Ok((acc, pos))
    } else if pos + 4 <= data.len() {
        spec_parse_mat_ids(data, pos + 4, (n - 1) as nat, acc.push(le32(data, pos)))
    } else {
        Err(ErrorV::UnexpectedEndOfData)
    }
}

/// Whether a raw id word is negative under two's complement, meaning
/// "decode a fresh material here".
pub open spec fn id_is_fresh(word: u32) -> bool {
    word >= 0x8000_0000
}

/// Resolve the id list from entry `i` on: a negative id decodes a fresh
/// material and appends it, a non-negative id `k` reuses the `k`-th fresh
/// material decoded so far, and one at or past the fresh count is an
/// `InvalidBackReference`.
pub open spec fn spec_resolve_mats(
    data: Seq<u8>,
    pos: int,
    ids: Seq<u32>,
    i: nat,
    fresh: Seq<MaterialV>,
    slots: Seq<int>,
    dict: Option<crate::texture::TexDictionaryV>,
) -> Result<((Seq<MaterialV>, Seq<int>), int), ErrorV>
    decreases ids.len() - i,
{
    if i >= ids.len() {
        Ok(((fresh, slots), pos))
    } else {
        let id = ids[i as int];
        if id_is_fresh(id) {
            match Material::spec_parse(data, pos, dict) {
                Ok((m, p)) => spec_resolve_mats(
                    data,
                    p,
                    ids,
                    (i + 1) as nat,
                    fresh.push(m),
                    slots.push(fresh.len() as int),
                    dict,
                ),
                Err(e) => Err(e),
            }
        } else if id < fresh.len() {
            spec_resolve_mats(data, pos, ids, (i + 1) as nat, fresh, slots.push(id as int), dict)
        } else {
            Err(ErrorV::InvalidBackReference)
        }
    }
}

/// What decoding a whole material list yields: a count, that many ids, then
/// the fresh materials in id order.
pub open spec fn spec_parse_matlist(
    data: Seq<u8>,
    pos: int,
    dict: Option<crate::texture::TexDictionaryV>,
) -> Result<(MaterialListV, int), ErrorV> {
    match spec_read_header_expecting(data, pos, ID_MATERIAL_LIST) {
        Ok((_, p0)) => match spec_read_header_expecting(data, p0, ID_STRUCT) {
            Ok((_, p1)) => if p1 + 4 <= data.len() {
                let n = le32(data, p1);
                match spec_parse_mat_ids(data, p1 + 4, n as nat, Seq::empty()) {
                    Ok((ids, p2)) => match spec_resolve_mats(
                        data,
                        p2,
                        ids,
                        0,
                        Seq::empty(),
                        Seq::empty(),
                        dict,
                    ) {
                        Ok(((fresh, slots), p3)) => Ok((MaterialListV { fresh, slots }, p3)),
                        Err(e) => Err(e),
                    },
                    Err(e) => Err(e),
                }
            } else {
                Err(ErrorV::UnexpectedEndOfData)
            },
            Err(e) => Err(e),
        },
        Err(e) => Err(e),
    }
}

/// How many of the first `i` ids ask for a fresh material.
pub open spec fn count_fresh_prefix(ids: Seq<u32>, i: int) -> int
    decreases i,
{
    if i <= 0 {
        0
    } else {
        count_fresh_prefix(ids, i - 1) + if id_is_fresh(ids[i - 1]) {
            1int
        } else {
            0int
        }
    }
}

/// What a resolved slot must look like: a fresh id takes the next fresh
/// index in order, a non-negative id names exactly the fresh material it
/// asks for, which must already have been decoded.
pub open spec fn slot_resolved(ids: Seq<u32>, slots: Seq<int>, k: int) -> bool {
    if id_is_fresh(ids[k]) {
        slots[k] == count_fresh_prefix(ids, k)
    } else {
        0 <= ids[k] < count_fresh_prefix(ids, k) && slots[k] == ids[k]
    }
}

/// Law: a resolved material list has one slot per id; exactly the negative
/// ids decode fresh materials (so entries of equal slot index alias one
/// shared material, and fresh decodes happen exactly once per negative id,
/// in order); each non-negative id aliases the slot it names, which always
/// lies below it; and every slot points into the fresh materials.
#[verifier::rlimit(50)]
pub proof fn lemma_resolve_mats_structure(
    data: Seq<u8>,
    pos: int,
    ids: Seq<u32>,
    i: nat,
    fresh: Seq<MaterialV>,
    slots: Seq<int>,
    dict: Option<crate::texture::TexDictionaryV>,
)
    requires
        i <= ids.len(),
        slots.len() == i,
        fresh.len() == count_fresh_prefix(ids, i as int),
        forall|k: int| 0 <= k < i ==> #[trigger] slot_resolved(ids, slots, k),
        forall|k: int| 0 <= k < i ==> 0 <= #[trigger] slots[k] < fresh.len(),
    ensures
        spec_resolve_mats(data, pos, ids, i, fresh, slots, dict) matches Ok(((f2, s2), p)) ==> {
            &&& s2.len() == ids.len()
            &&& f2.len() == count_fresh_prefix(ids, ids.len() as int)
            &&& forall|k: int| 0 <= k < ids.len() ==> #[trigger] slot_resolved(ids, s2, k)
            &&& forall|k: int| 0 <= k < s2.len() ==> 0 <= #[trigger] s2[k] < f2.len()
            &&& s2.subrange(0, i as int) == slots
        },
    decreases ids.len() - i,
{
    if i >= ids.len() {
        assert(slots.subrange(0, i as int) =~= slots);
    } else {
        let id = ids[i as int];
        if id_is_fresh(id) {
            match Material::spec_parse(data, pos, dict) {
                Ok((m, p)) => {
                    let fresh2 = fresh.push(m);
                    let slots2 = slots.push(fresh.len() as int);
                    assert(count_fresh_prefix(ids, i as int + 1) == count_fresh_prefix(ids, i as int) + 1);
                    assert forall|k: int|
                        0 <= k < i as int + 1 implies #[trigger] slot_resolved(ids, slots2, k) by {
                        if k < i {
                            assert(slot_resolved(ids, slots, k));
                            assert(slots2[k] == slots[k]);
                        } else {
                            assert(slots2[k] == fresh.len() as int);
                        }
                    }
                    lemma_resolve_mats_structure(data, p, ids, (i + 1) as nat, fresh2, slots2, dict);
                    if spec_resolve_mats(data, p, ids, (i + 1) as nat, fresh2, slots2, dict) is Ok {
                        let s2 = spec_resolve_mats(
                            data,
                            p,
                            ids,
                            (i + 1) as nat,
                            fresh2,
                            slots2,
                            dict,
                        )->Ok_0.0.1;
                        assert(s2.subrange(0, i as int) =~= s2.subrange(0, i as int + 1).subrange(0, i as int));
                        assert(s2.subrange(0, i as int) =~= slots);
                    }
                },
                Err(_) => {},
            }
        } else if id < fresh.len() {
            let slots2 = slots.push(id as int);
            assert forall|k: int|
                0 <= k < i as int + 1 implies #[trigger] slot_resolved(ids, slots2, k) by {
                if k < i {
                    assert(slot_resolved(ids, slots, k));
                    assert(slots2[k] == slots[k]);
                } else {
                    assert(slots2[k] == id as int);
                }
            }
            lemma_resolve_mats_structure(data, pos, ids, (i + 1) as nat, fresh, slots2, dict);
            if spec_resolve_mats(data, pos, ids, (i + 1) as nat, fresh, slots2, dict) is Ok {
                let s2 = spec_resolve_mats(data, pos, ids, (i + 1) as nat, fresh, slots2, dict)
                    ->Ok_0.0.1;
                assert(s2.subrange(0, i as int) =~= s2.subrange(0, i as int + 1).subrange(0, i as int));
                assert(s2.subrange(0, i as int) =~= slots);
            }
        }
    }
}

impl MaterialList {
    /// Type id of a material list section.
    pub fn section_id() -> (r: u32)
        ensures
            r == ID_MATERIAL_LIST,
    {
        ID_MATERIAL_LIST
    }

    /// Number of slots in the list.
    pub fn len(&self) -> (r: usize)
        ensures
            r == self@.slots.len(),
    {
        self.slots.len()
    }

    /// The material at a slot, shared, or `None` out of range.
    pub fn get(&self, index: usize) -> (r: Option<Rc<Material>>)
        ensures
            match r {
                Some(m) => index < self@.slots.len() && 0 <= self@.slots[index as int]
                    < self@.fresh.len() && m@ == matlist_entry(self@, index as int),
                None => index >= self@.slots.len() || !(0 <= self@.slots[index as int]
                    < self@.fresh.len()),
            },
    {
        if index >= self.slots.len() {
            return None;
        }
        let s = self.slots[index];
        if s < self.fresh.len() {
            Some(rc_clone(&self.fresh[s]))
        } else {
            None
        }
    }

    /// Read a whole material list: a count, that many signed ids, then one
    /// fresh material per negative id, with non-negative ids aliasing the
    /// slot they name.
    #[verifier::loop_isolation(false)]
    pub fn read(rws: &mut Stream, inst: &Instance) -> (r: Result<MaterialList, Error>)
        requires
            old(rws).wf(),
        ensures
            final(rws).wf(),
            final(rws)@.data == old(rws)@.data,
            match r {
                Ok(ml) => spec_parse_matlist(final(rws)@.data, old(rws)@.pos, inst@) == Ok::<
                    _,
                    ErrorV,
                >((ml@, final(rws)@.pos as int)) && matlist_wf(ml@),
                Err(e) => spec_parse_matlist(final(rws)@.data, old(rws)@.pos, inst@) == Err::<
                    (MaterialListV, int),
                    _,
                >(e@),
            },
    {
        let ghost data = old(rws)@.data;
        match rws.read_header_expecting(ID_MATERIAL_LIST) {
            Ok(_) => (),
            Err(e) => {
                return Err(e);
            },
        }
        match Struct::read_header(rws) {
            Ok(_) => (),
            Err(e) => {
                return Err(e);
            },
        }
        let n = match rws.read_u32() {
            Ok(w) => w,
            Err(e) => {
                return Err(e);
            },
        };
        let ghost ids_start = rws@.pos;
        let mut ids: Vec<u32> = Vec::new();
        proof {
            assert(ids@ =~= Seq::<u32>::empty());
        }
        let mut i: usize = 0;
        while i < n as usize
            invariant
                rws.wf(),
                rws@.data == data,
                i <= n,
                ids@.len() == i,
                spec_parse_mat_ids(data, ids_start, n as nat, Seq::empty()) == spec_parse_mat_ids(
                    data,
                    rws@.pos as int,
                    (n - i) as nat,
                    ids@,
                ),
            decreases n - i,
        {
            let id = match rws.read_u32() {
                Ok(w) => w,
                Err(e) => {
                    return Err(e);
                },
            };
            ids.push(id);
            i = i + 1;
        }
        let ghost idsv = ids@;
        let ghost res_start = rws@.pos;
        let mut fresh: Vec<Rc<Material>> = Vec::new();
        let mut slots: Vec<usize> = Vec::new();
        proof {
            assert(Seq::new(fresh@.len(), |k: int| fresh@[k]@) =~= Seq::<MaterialV>::empty());
            assert(Seq::new(slots@.len(), |k: int| slots@[k] as int) =~= Seq::<int>::empty());
        }
        let mut i: usize = 0;
        while i < ids.len()
            invariant
                rws.wf(),
                rws@.data == data,
                i <= ids@.len(),
                ids@ == idsv,
                slots@.len() == i,
                forall|k: int| 0 <= k < i ==> #[trigger] slots@[k] < fresh@.len(),
                spec_resolve_mats(data, res_start, idsv, 0, Seq::empty(), Seq::empty(), inst@)
                    == spec_resolve_mats(
                    data,
                    rws@.pos as int,
                    idsv,
                    i as nat,
                    Seq::new(fresh@.len(), |k: int| fresh@[k]@),
                    Seq::new(slots@.len(), |k: int| slots@[k] as int),
                    inst@,
                ),
            decreases ids@.len() - i,
        {
            let id = ids[i];
            let ghost pre_fresh = Seq::new(fresh@.len(), |k: int| fresh@[k]@);
            let ghost pre_slots = Seq::new(slots@.len(), |k: int| slots@[k] as int);
            if id >= 0x8000_0000 {
                let m = match Material::read(rws, inst) {
                    Ok(m) => m,
                    Err(e) => {
                        return Err(e);
                    },
                };
                let ghost mv = m@;
                slots.push(fresh.len());
                fresh.push(Rc::new(m));
                proof {
                    assert(Seq::new(fresh@.len(), |k: int| fresh@[k]@) =~= pre_fresh.push(mv));
                    assert(Seq::new(slots@.len(), |k: int| slots@[k] as int) =~= pre_slots.push(
                        pre_fresh.len() as int,
                    ));
                }
            } else {
                if (id as usize) < fresh.len() {
                    slots.push(id as usize);
                    proof {
                        assert(Seq::new(slots@.len(), |k: int| slots@[k] as int) =~= pre_slots.push(
                            id as int,
                        ));
                    }
                } else {
                    return Err(Error::InvalidBackReference);
                }
            }
            i = i + 1;
        }
        let ml = MaterialList { fresh, slots };
        Ok(ml)
    }
}

} // verus!
