//! Geometry: vertex attribute streams gated by a flags word and by the
//! section's declared format version, the face list, the material list,
//! and the precomputed mesh list delivered as a plugin chunk.

use vstd::prelude::*;

use std::rc::Rc;

use crate::{rc_clone, Error, ErrorV};
use crate::basic::{spec_parse_rgba, spec_parse_sphere, spec_parse_uv, spec_parse_vec3, Rgba,
    Sphere, Uv, Vec3};
use crate::material::{matlist_entry, spec_parse_matlist, Material, MaterialList, MaterialListV,
    MaterialV};
use crate::section::{Struct, ID_EXTENSION, ID_STRUCT};
use crate::session::Instance;
use crate::stream::{le16, le32, spec_read_header, spec_read_header_expecting, Stream};
use crate::texture::TexDictionaryV;

verus! {

pub const ID_GEOMETRY: u32 = 0x000F;

pub const ID_GEOMETRY_LIST: u32 = 0x001A;

pub const ID_MESH_LIST: u32 = 0x050E;

/// Sections whose declared version lies at or below this threshold carry
/// three legacy reflectance floats in their geometry struct.
pub const GEOMETRY_LEGACY_VERSION_MAX: u32 = 0x1003FFFF;

/// One face record: three vertex indices and a material id, in the order
/// the format stores them.
#[derive(Debug, Copy, Clone, PartialEq, Eq, Structural)]
pub struct Face {
    pub y_id: u16,
    pub x_id: u16,
    pub mat_id: u16,
    pub z_id: u16,
}

/// One morph target: a bounding sphere, two reserved words, and position
/// and normal streams whose presence bits are shared across all targets.
#[derive(Debug)]
pub struct MorphTarget {
    pub sphere: Sphere,
    pub unk1: u32,
    pub unk2: u32,
    pub verts: Option<Vec<Vec3>>,
    pub normals: Option<Vec<Vec3>>,
}

/// Mathematical image of a `MorphTarget`.
pub struct MorphTargetV {
    pub sphere: Sphere,
    pub unk1: u32,
    pub unk2: u32,
    pub verts: Option<Seq<Vec3>>,
    pub normals: Option<Seq<Vec3>>,
}

impl View for MorphTarget {
    type V = MorphTargetV;

    open spec fn view(&self) -> MorphTargetV {
        MorphTargetV {
            sphere: self.sphere,
            unk1: self.unk1,
            unk2: self.unk2,
            verts: match &self.verts {
                Some(v) => Some(v@),
                None => None,
            },
            normals: match &self.normals {
                Some(v) => Some(v@),
                None => None,
            },
        }
    }
}

/// A contiguous index run drawn with one shared material.
#[derive(Debug)]
pub struct Mesh {
    pub mat: Rc<Material>,
    pub indices: Vec<u16>,
}

/// Mathematical image of a `Mesh`.
pub struct MeshV {
    pub mat: MaterialV,
    pub indices: Seq<u16>,
}

impl View for Mesh {
    type V = MeshV;

    open spec fn view(&self) -> MeshV {
        MeshV { mat: self.mat@, indices: self.indices@ }
    }
}

/// The precomputed mesh list: a strip flag, the total index count, and the
/// meshes themselves.
#[derive(Debug)]
pub struct MeshHeader {
    pub is_tri_strip: bool,
    pub total_indices: u32,
    pub meshes: Vec<Mesh>,
}

/// Mathematical image of a `MeshHeader`.
pub struct MeshHeaderV {
    pub is_tri_strip: bool,
    pub total_indices: u32,
    pub meshes: Seq<MeshV>,
}

impl View for MeshHeader {
    type V = MeshHeaderV;

    open spec fn view(&self) -> MeshHeaderV {
        MeshHeaderV {
            is_tri_strip: self.is_tri_strip,
            total_indices: self.total_indices,
            meshes: Seq::new(self.meshes@.len(), |i: int| self.meshes@[i]@),
        }
    }
}

/// Raw mesh data: optional per-vertex attributes, morph targets, faces, the
/// material list, and the mesh list.
#[derive(Debug)]
pub struct Geometry {
    pub is_tri_strip: bool,
    pub colors: Option<Vec<Rgba>>,
    pub uv_sets: Vec<Vec<Uv>>,
    pub faces: Vec<Face>,
    pub targets: Vec<MorphTarget>,
    pub matlist: MaterialList,
    pub meshlist: MeshHeader,
}

/// Mathematical image of a `Geometry`.
pub struct GeometryV {
    pub is_tri_strip: bool,
    pub colors: Option<Seq<Rgba>>,
    pub uv_sets: Seq<Seq<Uv>>,
    pub faces: Seq<Face>,
    pub targets: Seq<MorphTargetV>,
    pub matlist: MaterialListV,
    pub meshlist: MeshHeaderV,
}

impl View for Geometry {
    type V = GeometryV;

    open spec fn view(&self) -> GeometryV {
        GeometryV {
            is_tri_strip: self.is_tri_strip,
            colors: match &self.colors {
                Some(v) => Some(v@),
                None => None,
            },
            uv_sets: Seq::new(self.uv_sets@.len(), |i: int| self.uv_sets@[i]@),
            faces: self.faces@,
            targets: Seq::new(self.targets@.len(), |i: int| self.targets@[i]@),
            matlist: self.matlist@,
            meshlist: self.meshlist@,
        }
    }
}

/// An ordered list of geometries shared by the atomics of one clump.
#[derive(Debug)]
pub struct GeometryList(pub Vec<Rc<Geometry>>);

impl View for GeometryList {
    type V = Seq<GeometryV>;

    open spec fn view(&self) -> Seq<GeometryV> {
        Seq::new(self.0@.len(), |i: int| self.0@[i]@)
    }
}

/// Parse `n` per-vertex colors.
pub open spec fn spec_parse_rgbas(data: Seq<u8>, pos: int, n: nat, acc: Seq<Rgba>) -> Result<
    (Seq<Rgba>, int),
    ErrorV,
>
    decreases n,
{
    if n == 0 {
        Ok((acc, pos))
    } else {
        match spec_parse_rgba(data, pos) {
            Ok((v, p)) => spec_parse_rgbas(data, p, (n - 1) as nat, acc.push(v)),
            Err(e) => Err(e),
        }
    }
}

/// Parse `n` texture coordinate pairs.
pub open spec fn spec_parse_uvs(data: Seq<u8>, pos: int, n: nat, acc: Seq<Uv>) -> Result<
    (Seq<Uv>, int),
    ErrorV,
>
    decreases n,
{
    if n == 0 {
        Ok((acc, pos))
    } else {
        match spec_parse_uv(data, pos) {
            Ok((v, p)) => spec_parse_uvs(data, p, (n - 1) as nat, acc.push(v)),
            Err(e) => Err(e),
        }
    }
}

/// Parse `nsets` coordinate sets of `nverts` pairs each.
pub open spec fn spec_parse_uv_sets(
    data: Seq<u8>,
    pos: int,
    nsets: nat,
    nverts: nat,
    acc: Seq<Seq<Uv>>,
) -> Result<(Seq<Seq<Uv>>, int), ErrorV>
    decreases nsets,
{
    if nsets == 0 {
        Ok((acc, pos))
    } else {
        match spec_parse_uvs(data, pos, nverts, Seq::empty()) {
            Ok((s, p)) => spec_parse_uv_sets(data, p, (nsets - 1) as nat, nverts, acc.push(s)),
            Err(e) => Err(e),
        }
    }
}

/// Parse one face record: four 16-bit fields.
pub open spec fn spec_parse_face(data: Seq<u8>, pos: int) -> Result<(Face, int), ErrorV> {
    if pos + 8 <= data.len() {
        Ok(
            (
                Face {
                    y_id: le16(data, pos),
                    x_id: le16(data, pos + 2),
                    mat_id: le16(data, pos + 4),
                    z_id: le16(data, pos + 6),
                },
                pos + 8,
            ),
        )
    } else {
        Err(ErrorV::UnexpectedEndOfData)
    }
}

/// Parse `n` face records.
pub open spec fn spec_parse_faces(data: Seq<u8>, pos: int, n: nat, acc: Seq<Face>) -> Result<
    (Seq<Face>, int),
    ErrorV,
>
    decreases n,
{
    if n == 0 {
        Ok((acc, pos))
    } else {
        match spec_parse_face(data, pos) {
            Ok((v, p)) => spec_parse_faces(data, p, (n - 1) as nat, acc.push(v)),
            Err(e) => Err(e),
        }
    }
}

/// Parse `n` vectors.
pub open spec fn spec_parse_vec3s(data: Seq<u8>, pos: int, n: nat, acc: Seq<Vec3>) -> Result<
    (Seq<Vec3>, int),
    ErrorV,
>
    decreases n,
{
    if n == 0 {
        Ok((acc, pos))
    } else {
        match spec_parse_vec3(data, pos) {
            Ok((v, p)) => spec_parse_vec3s(data, p, (n - 1) as nat, acc.push(v)),
            Err(e) => Err(e),
        }
    }
}

/// Parse one morph target: sphere, two reserved words, then positions iff
/// bit 1 of the flags word is set and normals iff bit 4 is set.  The bits
/// are shared across all targets, never re-read per target.
pub open spec fn spec_parse_morph(data: Seq<u8>, pos: int, flags: u16, nverts: nat) -> Result<
    (MorphTargetV, int),
    ErrorV,
> {
    match spec_parse_sphere(data, pos) {
        Ok((sphere, p0)) => if p0 + 8 <= data.len() {
            let unk1 = le32(data, p0);
            let unk2 = le32(data, p0 + 4);
            let p1 = p0 + 8;
            if flags & 2 != 0 {
                match spec_parse_vec3s(data, p1, nverts, Seq::empty()) {
                    Ok((verts, p2)) => if flags & 16 != 0 {
                        match spec_parse_vec3s(data, p2, nverts, Seq::empty()) {
                            Ok((normals, p3)) => Ok(
                                (
                                    MorphTargetV {
                                        sphere,
                                        unk1,
                                        unk2,
                                        verts: Some(verts),
                                        normals: Some(normals),
                                    },
                                    p3,
                                ),
                            ),
                            Err(e) => Err(e),
                        }
                    } else {
                        Ok((MorphTargetV { sphere, unk1, unk2, verts: Some(verts), normals: None }, p2))
                    },
                    Err(e) => Err(e),
                }
            } else {
                if flags & 16 != 0 {
                    match spec_parse_vec3s(data, p1, nverts, Seq::empty()) {
                        Ok((normals, p3)) => Ok(
                            (
                                MorphTargetV {
                                    sphere,
                                    unk1,
                                    unk2,
                                    verts: None,
                                    normals: Some(normals),
                                },
                                p3,
                            ),
                        ),
                        Err(e) => Err(e),
                    }
                } else {
                    Ok((MorphTargetV { sphere, unk1, unk2, verts: None, normals: None }, p1))
                }
            }
        } else {
            Err(ErrorV::UnexpectedEndOfData)
        },
        Err(e) => Err(e),
    }
}

/// Parse `n` morph targets under shared presence bits.
pub open spec fn spec_parse_morphs(
    data: Seq<u8>,
    pos: int,
    n: nat,
    flags: u16,
    nverts: nat,
    acc: Seq<MorphTargetV>,
) -> Result<(Seq<MorphTargetV>, int), ErrorV>
    decreases n,
{
    if n == 0 {
        Ok((acc, pos))
    } else {
        match spec_parse_morph(data, pos, flags, nverts) {
            Ok((v, p)) => spec_parse_morphs(data, p, (n - 1) as nat, flags, nverts, acc.push(v)),
            Err(e) => Err(e),
        }
    }
}

/// Parse `n` mesh indices; the format stores each as a 32-bit word whose
/// low half carries the index.
pub open spec fn spec_parse_indices(data: Seq<u8>, pos: int, n: nat, acc: Seq<u16>) -> Result<
    (Seq<u16>, int),
    ErrorV,
>
    decreases n,
{
    if n == 0 {
        Ok((acc, pos))
    } else if pos + 4 <= data.len() {
        spec_parse_indices(data, pos + 4, (n - 1) as nat, acc.push(le16(data, pos)))
    } else {
        Err(ErrorV::UnexpectedEndOfData)
    }
}

/// What decoding one mesh yields: an index count, a material slot that must
/// point into the already-resolved material list, then the indices.
pub open spec fn spec_parse_mesh(data: Seq<u8>, pos: int, ml: MaterialListV) -> Result<
    (MeshV, int),
    ErrorV,
> {
    if pos + 8 <= data.len() {
        let nidx = le32(data, pos);
        let matid = le32(data, pos + 4);
        if matid < ml.slots.len() && 0 <= ml.slots[matid as int] < ml.fresh.len() {
            match spec_parse_indices(data, pos + 8, nidx as nat, Seq::empty()) {
                Ok((indices, p)) => Ok(
                    (MeshV { mat: matlist_entry(ml, matid as int), indices }, p),
                ),
                Err(e) => Err(e),
            }
        } else {
            Err(ErrorV::InvalidBackReference)
        }
    } else {
        Err(ErrorV::UnexpectedEndOfData)
    }
}

/// Parse `n` meshes against one material list.
pub open spec fn spec_parse_meshes(
    data: Seq<u8>,
    pos: int,
    n: nat,
    ml: MaterialListV,
    acc: Seq<MeshV>,
) -> Result<(Seq<MeshV>, int), ErrorV>
    decreases n,
{
    if n == 0 {
        Ok((acc, pos))
    } else {
        match spec_parse_mesh(data, pos, ml) {
            Ok((v, p)) => spec_parse_meshes(data, p, (n - 1) as nat, ml, acc.push(v)),
            Err(e) => Err(e),
        }
    }
}

/// What decoding a whole mesh-list plugin chunk yields: its header, a strip
/// flag, a mesh count, the total index count, then the meshes.
pub open spec fn spec_parse_meshheader(data: Seq<u8>, pos: int, ml: MaterialListV) -> Result<
    (MeshHeaderV, int),
    ErrorV,
> {
    match spec_read_header_expecting(data, pos, ID_MESH_LIST) {
        Ok((_, p0)) => if p0 + 12 <= data.len() {
            let flags = le32(data, p0);
            let nmesh = le32(data, p0 + 4);
            let total = le32(data, p0 + 8);
            match spec_parse_meshes(data, p0 + 12, nmesh as nat, ml, Seq::empty()) {
                Ok((meshes, p)) => Ok(
                    (
                        MeshHeaderV {
                            is_tri_strip: flags & 1 != 0,
                            total_indices: total,
                            meshes,
                        },
                        p,
                    ),
                ),
                Err(e) => Err(e),
            }
        } else {
            Err(ErrorV::UnexpectedEndOfData)
        },
        Err(e) => Err(e),
    }
}

/// Scan one extension region for the first mesh-list plugin, consuming the
/// whole region chunk by chunk.  Every chunk is passed over by its declared
/// size; the first mesh-list chunk is decoded in place, and its decoder may
/// not consume past the chunk's declared end.  A region of declared size
/// zero yields nothing without reading any inner header.
pub open spec fn spec_scan_meshlist(
    data: Seq<u8>,
    pos: int,
    end: int,
    ml: MaterialListV,
    found: Option<MeshHeaderV>,
) -> Result<(Option<MeshHeaderV>, int), ErrorV>
    decreases end - pos,
{
    if pos >= end {
        Ok((found, pos))
    } else if pos + 12 > end {
        Err(ErrorV::UnexpectedEndOfData)
    } else {
        match spec_read_header(data, pos) {
            Ok((h, p)) => if p + h.size > data.len() || p + h.size > end {
                Err(ErrorV::UnexpectedEndOfData)
            } else if h.id == ID_MESH_LIST && found is None {
                match spec_parse_meshheader(data, pos, ml) {
                    Ok((mh, p2)) => if p2 > p + h.size {
                        Err(ErrorV::UnexpectedEndOfData)
                    } else {
                        spec_scan_meshlist(data, p + h.size, end, ml, Some(mh))
                    },
                    Err(e) => Err(e),
                }
            } else {
                spec_scan_meshlist(data, p + h.size, end, ml, found)
            },
            Err(e) => Err(e),
        }
    }
}

/// Law: an extension region of declared size zero yields no mesh list and
/// the scan reads no inner header; the cursor ends right after the region
/// header.
pub proof fn lemma_empty_region_has_no_meshlist(data: Seq<u8>, pos: int, ml: MaterialListV)
    requires
        spec_read_header_expecting(data, pos, crate::section::ID_EXTENSION) matches Ok((h, _))
            && h.size == 0,
    ensures
        spec_read_meshlist_ext(data, pos, ml) == Ok::<_, ErrorV>((None::<MeshHeaderV>, pos + 12)),
{
}

/// What reading a geometry's extension region yields: the first mesh-list
/// plugin, if any, with the whole region consumed either way.
pub open spec fn spec_read_meshlist_ext(data: Seq<u8>, pos: int, ml: MaterialListV) -> Result<
    (Option<MeshHeaderV>, int),
    ErrorV,
> {
    match spec_read_header_expecting(data, pos, crate::section::ID_EXTENSION) {
        Ok((h, p)) => spec_scan_meshlist(data, p, p + h.size, ml, None),
        Err(e) => Err(e),
    }
}

/// How many bytes the legacy reflectance triple occupies for a declared
/// version: twelve at or below the threshold, none above it.
pub open spec fn legacy_len(version: u32) -> int {
    if version <= GEOMETRY_LEGACY_VERSION_MAX {
        12
    } else {
        0
    }
}

/// Where a geometry struct's variable part starts, after the fixed head
/// and the version-gated legacy floats.
pub open spec fn geo_body_start(p1: int, version: u32) -> int {
    p1 + 16 + legacy_len(version)
}

/// Law: the geometry struct layout consumes the three legacy floats,
/// twelve bytes, exactly when the declared version lies at or below the
/// legacy threshold; above it the variable part follows the fixed head
/// directly.
pub proof fn lemma_geometry_version_gate(p1: int, version: u32)
    ensures
        version <= GEOMETRY_LEGACY_VERSION_MAX ==> geo_body_start(p1, version) == p1 + 28,
        version > GEOMETRY_LEGACY_VERSION_MAX ==> geo_body_start(p1, version) == p1 + 16,
{
}

/// What decoding one geometry yields.  The struct opens with a flags word,
/// a coordinate-set count, a format byte, triangle, vertex and morph-target
/// counts; the legacy reflectance triple follows only under the version
/// threshold; then per-vertex colors iff bit 3 of the flags is set, the
/// coordinate sets, the faces, and the morph targets; after the struct, the
/// material list; and finally the extension region, whose mesh-list plugin
/// is required — a geometry without one fails with `SectionNotFound` of the
/// mesh-list id rather than deriving meshes from the face list.
pub open spec fn spec_parse_geometry(data: Seq<u8>, pos: int, dict: Option<TexDictionaryV>) -> Result<
    (GeometryV, int),
    ErrorV,
> {
    match spec_read_header_expecting(data, pos, ID_GEOMETRY) {
        Ok((h, p0)) => match spec_read_header_expecting(data, p0, ID_STRUCT) {
            Ok((_, p1)) => if geo_body_start(p1, h.version) <= data.len() {
                let flags = le16(data, p1);
                let num_uv = data[p1 + 2];
                let num_tris = le32(data, p1 + 4);
                let num_verts = le32(data, p1 + 8);
                let num_morphs = le32(data, p1 + 12);
                let pb = geo_body_start(p1, h.version);
                let colors_r: Result<(Option<Seq<Rgba>>, int), ErrorV> = if flags & 8 != 0 {
                    match spec_parse_rgbas(data, pb, num_verts as nat, Seq::empty()) {
                        Ok((cs, p)) => Ok((Some(cs), p)),
                        Err(e) => Err(e),
                    }
                } else {
                    Ok((None, pb))
                };
                match colors_r {
                    Ok((colors, p2)) => match spec_parse_uv_sets(
                        data,
                        p2,
                        num_uv as nat,
                        num_verts as nat,
                        Seq::empty(),
                    ) {
                        Ok((uv_sets, p3)) => match spec_parse_faces(
                            data,
                            p3,
                            num_tris as nat,
                            Seq::empty(),
                        ) {
                            Ok((faces, p4)) => match spec_parse_morphs(
                                data,
                                p4,
                                num_morphs as nat,
                                flags,
                                num_verts as nat,
                                Seq::empty(),
                            ) {
                                Ok((targets, p5)) => match spec_parse_matlist(data, p5, dict) {
                                    Ok((ml, p6)) => match spec_read_meshlist_ext(data, p6, ml) {
                                        Ok((Some(mh), p7)) => Ok(
                                            (
                                                GeometryV {
                                                    is_tri_strip: flags & 1 != 0,
                                                    colors,
                                                    uv_sets,
                                                    faces,
                                                    targets,
                                                    matlist: ml,
                                                    meshlist: mh,
                                                },
                                                p7,
                                            ),
                                        ),
                                        Ok((None, _)) => Err(
                                            ErrorV::SectionNotFound(ID_MESH_LIST),
                                        ),
                                        Err(e) => Err(e),
                                    },
                                    Err(e) => Err(e),
                                },
                                Err(e) => Err(e),
                            },
                            Err(e) => Err(e),
                        },
                        Err(e) => Err(e),
                    },
                    Err(e) => Err(e),
                }
            } else {
                Err(ErrorV::UnexpectedEndOfData)
            },
            Err(e) => Err(e),
        },
        Err(e) => Err(e),
    }
}

/// Parse `n` geometries.
pub open spec fn spec_parse_geometries(
    data: Seq<u8>,
    pos: int,
    n: nat,
    dict: Option<TexDictionaryV>,
    acc: Seq<GeometryV>,
) -> Result<(Seq<GeometryV>, int), ErrorV>
    decreases n,
{
    if n == 0 {
        Ok((acc, pos))
    } else {
        match spec_parse_geometry(data, pos, dict) {
            Ok((g, p)) => spec_parse_geometries(data, p, (n - 1) as nat, dict, acc.push(g)),
            Err(e) => Err(e),
        }
    }
}

/// What decoding a whole geometry list yields: a count, then that many
/// geometries.
pub open spec fn spec_parse_geometrylist(data: Seq<u8>, pos: int, dict: Option<TexDictionaryV>) -> Result<
    (Seq<GeometryV>, int),
    ErrorV,
> {
    match spec_read_header_expecting(data, pos, ID_GEOMETRY_LIST) {
        Ok((_, p0)) => match spec_read_header_expecting(data, p0, ID_STRUCT) {
            Ok((_, p1)) => if p1 + 4 <= data.len() {
                match spec_parse_geometries(data, p1 + 4, le32(data, p1) as nat, dict, Seq::empty()) {
                    Ok((gs, p2)) => Ok((gs, p2)),
                    Err(e) => Err(e),
                }
            } else {
                Err(ErrorV::UnexpectedEndOfData)
            },
            Err(e) => Err(e),
        },
        Err(e) => Err(e),
    }
}

impl Face {
    /// Read one face record: four 16-bit fields.
    pub fn read(rws: &mut Stream) -> (r: Result<Face, Error>)
        requires
            old(rws).wf(),
        ensures
            final(rws).wf(),
            final(rws)@.data == old(rws)@.data,
            match r {
                Ok(v) => spec_parse_face(final(rws)@.data, old(rws)@.pos) == Ok::<_, ErrorV>(
                    (v, final(rws)@.pos as int),
                ),
                Err(e) => spec_parse_face(final(rws)@.data, old(rws)@.pos) == Err::<(Face, int), _>(
                    e@,
                ),
            },
    {
        let y_id = match rws.read_u16() {
            Ok(w) => w,
            Err(e) => {
                return Err(e);
            },
        };
        let x_id = match rws.read_u16() {
            Ok(w) => w,
            Err(e) => {
                return Err(e);
            },
        };
        let mat_id = match rws.read_u16() {
            Ok(w) => w,
            Err(e) => {
                return Err(e);
            },
        };
        let z_id = match rws.read_u16() {
            Ok(w) => w,
            Err(e) => {
                return Err(e);
            },
        };
        Ok(Face { y_id, x_id, mat_id, z_id })
    }
}

impl MorphTarget {
    /// Read one morph target under the geometry's shared presence bits.
    #[verifier::loop_isolation(false)]
    pub fn read(rws: &mut Stream, flags: u16, nverts: u32) -> (r: Result<MorphTarget, Error>)
        requires
            old(rws).wf(),
        ensures
            final(rws).wf(),
            final(rws)@.data == old(rws)@.data,
            match r {
                Ok(v) => spec_parse_morph(final(rws)@.data, old(rws)@.pos, flags, nverts as nat)
                    == Ok::<_, ErrorV>((v@, final(rws)@.pos as int)),
                Err(e) => spec_parse_morph(final(rws)@.data, old(rws)@.pos, flags, nverts as nat)
                    == Err::<(MorphTargetV, int), _>(e@),
            },
    {
        let ghost data = old(rws)@.data;
        let sphere = match Sphere::read(rws) {
            Ok(s) => s,
            Err(e) => {
                return Err(e);
            },
        };
        let unk1 = match rws.read_u32() {
            Ok(w) => w,
            Err(e) => {
                return Err(e);
            },
        };
        let unk2 = match rws.read_u32() {
            Ok(w) => w,
            Err(e) => {
                return Err(e);
            },
        };
        let verts: Option<Vec<Vec3>> = if flags & 2 != 0 {
            match read_vec3s(rws, nverts) {
                Ok(v) => Some(v),
                Err(e) => {
                    return Err(e);
                },
            }
        } else {
            None
        };
        let normals: Option<Vec<Vec3>> = if flags & 16 != 0 {
            match read_vec3s(rws, nverts) {
                Ok(v) => Some(v),
                Err(e) => {
                    return Err(e);
                },
            }
        } else {
            None
        };
        Ok(MorphTarget { sphere, unk1, unk2, verts, normals })
    }
}

/// Read `n` vectors into a fresh list.
#[verifier::loop_isolation(false)]
fn read_vec3s(rws: &mut Stream, n: u32) -> (r: Result<Vec<Vec3>, Error>)
    requires
        old(rws).wf(),
    ensures
        final(rws).wf(),
        final(rws)@.data == old(rws)@.data,
        match r {
            Ok(v) => spec_parse_vec3s(final(rws)@.data, old(rws)@.pos, n as nat, Seq::empty())
                == Ok::<_, ErrorV>((v@, final(rws)@.pos as int)),
            Err(e) => spec_parse_vec3s(final(rws)@.data, old(rws)@.pos, n as nat, Seq::empty())
                == Err::<(Seq<Vec3>, int), _>(e@),
        },
{
    let ghost data = old(rws)@.data;
    let ghost start = old(rws)@.pos;
    let mut v: Vec<Vec3> = Vec::new();
    let mut i: usize = 0;
    while i < n as usize
        invariant
            rws.wf(),
            rws@.data == data,
            i <= n,
            v@.len() == i,
            spec_parse_vec3s(data, start, n as nat, Seq::empty()) == spec_parse_vec3s(
                data,
                rws@.pos as int,
                (n - i) as nat,
                v@,
            ),
        decreases n - i,
    {
        let x = match Vec3::read(rws) {
            Ok(x) => x,
            Err(e) => {
                return Err(e);
            },
        };
        v.push(x);
        i = i + 1;
    }
    Ok(v)
}

impl Mesh {
    /// Read one mesh: an index count, a material slot resolved against the
    /// already-decoded material list, then the indices (one per 32-bit
    /// word, low half kept).
    #[verifier::loop_isolation(false)]
    pub fn read(rws: &mut Stream, matlist: &MaterialList) -> (r: Result<Mesh, Error>)
        requires
            old(rws).wf(),
        ensures
            final(rws).wf(),
            final(rws)@.data == old(rws)@.data,
            match r {
                Ok(m) => spec_parse_mesh(final(rws)@.data, old(rws)@.pos, matlist@) == Ok::<
                    _,
                    ErrorV,
                >((m@, final(rws)@.pos as int)),
                Err(e) => spec_parse_mesh(final(rws)@.data, old(rws)@.pos, matlist@) == Err::<
                    (MeshV, int),
                    _,
                >(e@),
            },
    {
        let ghost data = old(rws)@.data;
        let nidx = match rws.read_u32() {
            Ok(w) => w,
            Err(e) => {
                return Err(e);
            },
        };
        let matid = match rws.read_u32() {
            Ok(w) => w,
            Err(e) => {
                return Err(e);
            },
        };
        let mat = match matlist.get(matid as usize) {
            Some(m) => m,
            None => {
                return Err(Error::InvalidBackReference);
            },
        };
        let ghost start = rws@.pos;
        let mut indices: Vec<u16> = Vec::new();
        let mut i: usize = 0;
        while i < nidx as usize
            invariant
                rws.wf(),
                rws@.data == data,
                i <= nidx,
                indices@.len() == i,
                spec_parse_indices(data, start, nidx as nat, Seq::empty()) == spec_parse_indices(
                    data,
                    rws@.pos as int,
                    (nidx - i) as nat,
                    indices@,
                ),
            decreases nidx - i,
        {
            let lo = match rws.read_u16() {
                Ok(w) => w,
                Err(e) => {
                    return Err(e);
                },
            };
            let _hi = match rws.read_u16() {
                Ok(w) => w,
                Err(e) => {
                    return Err(e);
                },
            };
            indices.push(lo);
            i = i + 1;
        }
        Ok(Mesh { mat, indices })
    }
}

impl MeshHeader {
    /// Type id of the mesh-list plugin chunk.
    pub fn section_id() -> (r: u32)
        ensures
            r == ID_MESH_LIST,
    {
        ID_MESH_LIST
    }

    /// Read a whole mesh-list plugin chunk against one material list.
    #[verifier::loop_isolation(false)]
    pub fn read(rws: &mut Stream, matlist: &MaterialList) -> (r: Result<MeshHeader, Error>)
        requires
            old(rws).wf(),
        ensures
            final(rws).wf(),
            final(rws)@.data == old(rws)@.data,
            match r {
                Ok(mh) => spec_parse_meshheader(final(rws)@.data, old(rws)@.pos, matlist@) == Ok::<
                    _,
                    ErrorV,
                >((mh@, final(rws)@.pos as int)),
                Err(e) => spec_parse_meshheader(final(rws)@.data, old(rws)@.pos, matlist@) == Err::<
                    (MeshHeaderV, int),
                    _,
                >(e@),
            },
    {
        let ghost data = old(rws)@.data;
        match rws.read_header_expecting(ID_MESH_LIST) {
            Ok(_) => (),
            Err(e) => {
                return Err(e);
            },
        }
        let flags = match rws.read_u32() {
            Ok(w) => w,
            Err(e) => {
                return Err(e);
            },
        };
        let nmesh = match rws.read_u32() {
            Ok(w) => w,
            Err(e) => {
                return Err(e);
            },
        };
        let total_nidx = match rws.read_u32() {
            Ok(w) => w,
            Err(e) => {
                return Err(e);
            },
        };
        let ghost start = rws@.pos;
        let mut meshes: Vec<Mesh> = Vec::new();
        proof {
            assert(Seq::new(meshes@.len(), |k: int| meshes@[k]@) =~= Seq::<MeshV>::empty());
        }
        let mut i: usize = 0;
        while i < nmesh as usize
            invariant
                rws.wf(),
                rws@.data == data,
                i <= nmesh,
                meshes@.len() == i,
                spec_parse_meshes(data, start, nmesh as nat, matlist@, Seq::empty())
                    == spec_parse_meshes(
                    data,
                    rws@.pos as int,
                    (nmesh - i) as nat,
                    matlist@,
                    Seq::new(meshes@.len(), |k: int| meshes@[k]@),
                ),
            decreases nmesh - i,
        {
            let m = match Mesh::read(rws, matlist) {
                Ok(m) => m,
                Err(e) => {
                    return Err(e);
                },
            };
            let ghost pre = Seq::new(meshes@.len(), |k: int| meshes@[k]@);
            let ghost mv = m@;
            meshes.push(m);
            proof {
                assert(Seq::new(meshes@.len(), |k: int| meshes@[k]@) =~= pre.push(mv));
            }
            i = i + 1;
        }
        Ok(MeshHeader { is_tri_strip: flags & 1 != 0, total_indices: total_nidx, meshes })
    }
}

/// Read a geometry's extension region, decoding the first mesh-list plugin
/// and consuming the whole region.  A region of declared size zero yields
/// `None` without reading any inner header.
#[verifier::loop_isolation(false)]
#[verifier::rlimit(100)]
#[verifier::spinoff_prover]
pub fn read_meshlist_ext(rws: &mut Stream, matlist: &MaterialList) -> (r: Result<
    Option<MeshHeader>,
    Error,
>)
    requires
        old(rws).wf(),
    ensures
        final(rws).wf(),
        final(rws)@.data == old(rws)@.data,
        match r {
            Ok(opt) => spec_read_meshlist_ext(final(rws)@.data, old(rws)@.pos, matlist@) matches Ok(
                (o, p),
            ) && p == final(rws)@.pos && o == match opt {
                Some(mh) => Some(mh@),
                None => None::<MeshHeaderV>,
            },
            Err(e) => spec_read_meshlist_ext(final(rws)@.data, old(rws)@.pos, matlist@) == Err::<
                (Option<MeshHeaderV>, int),
                _,
            >(e@),
        },
{
    let h = match rws.read_header_expecting(crate::section::ID_EXTENSION) {
        Ok(h) => h,
        Err(e) => {
            return Err(e);
        },
    };
    let ghost region_end = rws@.pos + h.size;
    let ghost mlv = matlist@;
    let ghost data = old(rws)@.data;
    let mut region_left: u64 = h.size as u64;
    let mut found: Option<MeshHeader> = None;
    loop
        invariant
            rws.wf(),
            rws@.data == data,
            rws@.pos + region_left == region_end,
            spec_read_meshlist_ext(data, old(rws)@.pos, mlv) == spec_scan_meshlist(
                data,
                rws@.pos as int,
                region_end,
                mlv,
                match found {
                    Some(mh) => Some(mh@),
                    None => None::<MeshHeaderV>,
                },
            ),
        decreases region_left,
    {
        if region_left == 0 {
            return Ok(found);
        }
        if region_left < 12 {
            return Err(Error::UnexpectedEndOfData);
        }
        let chunk_start = rws.pos();
        let ghost found0: Option<MeshHeaderV> = match &found {
            Some(mh) => Some(mh@),
            None => None,
        };
        let ih = match rws.read_header() {
            Ok(h) => h,
            Err(e) => {
                return Err(e);
            },
        };
        if ih.size as u64 > region_left - 12 {
            return Err(Error::UnexpectedEndOfData);
        }
        if ih.size as usize > rws.remaining() {
            return Err(Error::UnexpectedEndOfData);
        }
        let payload_start = rws.pos();
        let total = rws.len();
        proof {
            assert(payload_start + ih.size <= total);
        }
        let chunk_end = payload_start + ih.size as usize;
        if ih.id == ID_MESH_LIST && found.is_none() {
            rws.seek(chunk_start);
            let mh = match MeshHeader::read(rws, matlist) {
                Ok(mh) => mh,
                Err(e) => {
                    return Err(e);
                },
            };
            if rws.pos() > chunk_end {
                return Err(Error::UnexpectedEndOfData);
            }
            proof {
                assert(spec_scan_meshlist(data, chunk_start as int, region_end, mlv, found0)
                    == spec_scan_meshlist(data, chunk_end as int, region_end, mlv, Some(mh@)));
            }
            found = Some(mh);
        } else {
            proof {
                assert(spec_scan_meshlist(data, chunk_start as int, region_end, mlv, found0)
                    == spec_scan_meshlist(data, chunk_end as int, region_end, mlv, found0));
            }
        }
        rws.seek(chunk_end);
        region_left = region_left - 12 - ih.size as u64;
    }
}

impl GeometryList {
    /// Type id of a geometry list section.
    pub fn section_id() -> (r: u32)
        ensures
            r == ID_GEOMETRY_LIST,
    {
        ID_GEOMETRY_LIST
    }

    /// Number of geometries in the list.
    pub fn len(&self) -> (r: usize)
        ensures
            r == self@.len(),
    {
        self.0.len()
    }

    /// The geometry at `index`, shared, or `None` past the end.
    pub fn get(&self, index: usize) -> (r: Option<Rc<Geometry>>)
        ensures
            match r {
                Some(g) => index < self@.len() && g@ == self@[index as int],
                None => index >= self@.len(),
            },
    {
        if index < self.0.len() {
            Some(rc_clone(&self.0[index]))
        } else {
            None
        }
    }

    /// Read a whole geometry list: a count, then that many geometries.
    #[verifier::loop_isolation(false)]
    pub fn read(rws: &mut Stream, inst: &Instance) -> (r: Result<GeometryList, Error>)
        requires
            old(rws).wf(),
        ensures
            final(rws).wf(),
            final(rws)@.data == old(rws)@.data,
            match r {
                Ok(gl) => spec_parse_geometrylist(final(rws)@.data, old(rws)@.pos, inst@) == Ok::<
                    _,
                    ErrorV,
                >((gl@, final(rws)@.pos as int)),
                Err(e) => spec_parse_geometrylist(final(rws)@.data, old(rws)@.pos, inst@) == Err::<
                    (Seq<GeometryV>, int),
                    _,
                >(e@),
            },
    {
        let ghost data = old(rws)@.data;
        match rws.read_header_expecting(ID_GEOMETRY_LIST) {
            Ok(_) => (),
            Err(e) => {
                return Err(e);
            },
        }
        match Struct::read_header(rws) {
            Ok(_) => (),
            Err(e) => {
                return Err(e);
            },
        }
        let numgeo = match rws.read_u32() {
            Ok(w) => w,
            Err(e) => {
                return Err(e);
            },
        };
        let ghost start = rws@.pos;
        let mut geos: Vec<Rc<Geometry>> = Vec::new();
        proof {
            assert(Seq::new(geos@.len(), |k: int| geos@[k]@) =~= Seq::<GeometryV>::empty());
        }
        let mut i: usize = 0;
        while i < numgeo as usize
            invariant
                rws.wf(),
                rws@.data == data,
                i <= numgeo,
                geos@.len() == i,
                spec_parse_geometries(data, start, numgeo as nat, inst@, Seq::empty())
                    == spec_parse_geometries(
                    data,
                    rws@.pos as int,
                    (numgeo - i) as nat,
                    inst@,
                    Seq::new(geos@.len(), |k: int| geos@[k]@),
                ),
            decreases numgeo - i,
        {
            let g = match Geometry::read(rws, inst) {
                Ok(g) => g,
                Err(e) => {
                    return Err(e);
                },
            };
            let ghost pre = Seq::new(geos@.len(), |k: int| geos@[k]@);
            let ghost gv = g@;
            geos.push(Rc::new(g));
            proof {
                assert(Seq::new(geos@.len(), |k: int| geos@[k]@) =~= pre.push(gv));
            }
            i = i + 1;
        }
        Ok(GeometryList(geos))
    }
}

impl Geometry {
    /// Type id of a geometry section.
    pub fn section_id() -> (r: u32)
        ensures
            r == ID_GEOMETRY,
    {
        ID_GEOMETRY
    }

    /// Read one geometry: the version-gated struct body, the material
    /// list, and the required mesh-list plugin from the extension region.
    #[verifier::loop_isolation(false)]
    #[verifier::rlimit(100)]
    #[verifier::spinoff_prover]
    pub fn read(rws: &mut Stream, inst: &Instance) -> (r: Result<Geometry, Error>)
        requires
            old(rws).wf(),
        ensures
            final(rws).wf(),
            final(rws)@.data == old(rws)@.data,
            match r {
                Ok(g) => spec_parse_geometry(final(rws)@.data, old(rws)@.pos, inst@) == Ok::<
                    _,
                    ErrorV,
                >((g@, final(rws)@.pos as int)),
                Err(e) => spec_parse_geometry(final(rws)@.data, old(rws)@.pos, inst@) == Err::<
                    (GeometryV, int),
                    _,
                >(e@),
            },
    {
        let ghost data = old(rws)@.data;
        let header = match rws.read_header_expecting(ID_GEOMETRY) {
            Ok(h) => h,
            Err(e) => {
                return Err(e);
            },
        };
        match Struct::read_header(rws) {
            Ok(_) => (),
            Err(e) => {
                return Err(e);
            },
        }
        let ghost p1 = rws@.pos;
        if rws.remaining() < 16 {
            return Err(Error::UnexpectedEndOfData);
        }
        let flags = match rws.read_u16() {
            Ok(w) => w,
            Err(e) => {
                return Err(e);
            },
        };
        let num_uv = match rws.read_u8() {
            Ok(b) => b,
            Err(e) => {
                return Err(e);
            },
        };
        let _natflags = match rws.read_u8() {
            Ok(b) => b,
            Err(e) => {
                return Err(e);
            },
        };
        let num_tris = match rws.read_u32() {
            Ok(w) => w,
            Err(e) => {
                return Err(e);
            },
        };
        let num_verts = match rws.read_u32() {
            Ok(w) => w,
            Err(e) => {
                return Err(e);
            },
        };
        let num_morphs = match rws.read_u32() {
            Ok(w) => w,
            Err(e) => {
                return Err(e);
            },
        };
        if header.version <= GEOMETRY_LEGACY_VERSION_MAX {
            if rws.remaining() < 12 {
                return Err(Error::UnexpectedEndOfData);
            }
            let _ambient = match rws.read_u32() {
                Ok(w) => w,
                Err(e) => {
                    return Err(e);
                },
            };
            let _diffuse = match rws.read_u32() {
                Ok(w) => w,
                Err(e) => {
                    return Err(e);
                },
            };
            let _specular = match rws.read_u32() {
                Ok(w) => w,
                Err(e) => {
                    return Err(e);
                },
            };
        }
        proof {
            assert(rws@.pos == geo_body_start(p1, header.version));
        }
        let colors: Option<Vec<Rgba>> = if flags & 8 != 0 {
            let ghost cstart = rws@.pos;
            let mut cs: Vec<Rgba> = Vec::new();
            let mut i: usize = 0;
            while i < num_verts as usize
                invariant
                    rws.wf(),
                    rws@.data == data,
                    i <= num_verts,
                    cs@.len() == i,
                    spec_parse_rgbas(data, cstart, num_verts as nat, Seq::empty())
                        == spec_parse_rgbas(data, rws@.pos as int, (num_verts - i) as nat, cs@),
                decreases num_verts - i,
            {
                let c = match Rgba::read(rws) {
                    Ok(c) => c,
                    Err(e) => {
                        return Err(e);
                    },
                };
                cs.push(c);
                i = i + 1;
            }
            Some(cs)
        } else {
            None
        };
        let ghost sets_start = rws@.pos;
        let mut uv_sets: Vec<Vec<Uv>> = Vec::new();
        proof {
            assert(Seq::new(uv_sets@.len(), |k: int| uv_sets@[k]@) =~= Seq::<Seq<Uv>>::empty());
        }
        let mut s: usize = 0;
        while s < num_uv as usize
            invariant
                rws.wf(),
                rws@.data == data,
                s <= num_uv,
                uv_sets@.len() == s,
                spec_parse_uv_sets(data, sets_start, num_uv as nat, num_verts as nat, Seq::empty())
                    == spec_parse_uv_sets(
                    data,
                    rws@.pos as int,
                    (num_uv - s) as nat,
                    num_verts as nat,
                    Seq::new(uv_sets@.len(), |k: int| uv_sets@[k]@),
                ),
            decreases num_uv - s,
        {
            let ghost set_start = rws@.pos;
            let mut set: Vec<Uv> = Vec::new();
            let mut i: usize = 0;
            while i < num_verts as usize
                invariant
                    rws.wf(),
                    rws@.data == data,
                    i <= num_verts,
                    set@.len() == i,
                    spec_parse_uvs(data, set_start, num_verts as nat, Seq::empty())
                        == spec_parse_uvs(data, rws@.pos as int, (num_verts - i) as nat, set@),
                decreases num_verts - i,
            {
                let uv = match Uv::read(rws) {
                    Ok(uv) => uv,
                    Err(e) => {
                        return Err(e);
                    },
                };
                set.push(uv);
                i = i + 1;
            }
            let ghost pre = Seq::new(uv_sets@.len(), |k: int| uv_sets@[k]@);
            let ghost setv = set@;
            uv_sets.push(set);
            proof {
                assert(Seq::new(uv_sets@.len(), |k: int| uv_sets@[k]@) =~= pre.push(setv));
            }
            s = s + 1;
        }
        let ghost faces_start = rws@.pos;
        let mut faces: Vec<Face> = Vec::new();
        let mut i: usize = 0;
        while i < num_tris as usize
            invariant
                rws.wf(),
                rws@.data == data,
                i <= num_tris,
                faces@.len() == i,
                spec_parse_faces(data, faces_start, num_tris as nat, Seq::empty())
                    == spec_parse_faces(data, rws@.pos as int, (num_tris - i) as nat, faces@),
            decreases num_tris - i,
        {
            let f = match Face::read(rws) {
                Ok(f) => f,
                Err(e) => {
                    return Err(e);
                },
            };
            faces.push(f);
            i = i + 1;
        }
        let ghost morphs_start = rws@.pos;
        let mut targets: Vec<MorphTarget> = Vec::new();
        proof {
            assert(Seq::new(targets@.len(), |k: int| targets@[k]@) =~= Seq::<
                MorphTargetV,
            >::empty());
        }
        let mut i: usize = 0;
        while i < num_morphs as usize
            invariant
                rws.wf(),
                rws@.data == data,
                i <= num_morphs,
                targets@.len() == i,
                spec_parse_morphs(
                    data,
                    morphs_start,
                    num_morphs as nat,
                    flags,
                    num_verts as nat,
                    Seq::empty(),
                ) == spec_parse_morphs(
                    data,
                    rws@.pos as int,
                    (num_morphs - i) as nat,
                    flags,
                    num_verts as nat,
                    Seq::new(targets@.len(), |k: int| targets@[k]@),
                ),
            decreases num_morphs - i,
        {
            let t = match MorphTarget::read(rws, flags, num_verts) {
                Ok(t) => t,
                Err(e) => {
                    return Err(e);
                },
            };
            let ghost pre = Seq::new(targets@.len(), |k: int| targets@[k]@);
            let ghost tv = t@;
            targets.push(t);
            proof {
                assert(Seq::new(targets@.len(), |k: int| targets@[k]@) =~= pre.push(tv));
            }
            i = i + 1;
        }
        let matlist = match MaterialList::read(rws, inst) {
            Ok(ml) => ml,
            Err(e) => {
                return Err(e);
            },
        };
        let meshlist = match read_meshlist_ext(rws, &matlist) {
            Ok(Some(mh)) => mh,
            Ok(None) => {
                return Err(Error::SectionNotFound(ID_MESH_LIST));
            },
            Err(e) => {
                return Err(e);
            },
        };
        Ok(
            Geometry {
                is_tri_strip: flags & 1 != 0,
                colors,
                uv_sets,
                faces,
                targets,
                matlist,
                meshlist,
            },
        )
    }
}

} // verus!
