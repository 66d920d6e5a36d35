use std::rc::Rc;

use rwstream::{Clump, Error, FrameList, Geometry, Instance, Matrix, MaterialList, Stream, Vec3};

fn push_u32(b: &mut Vec<u8>, v: u32) {
    b.extend_from_slice(&v.to_le_bytes());
}

fn push_u16(b: &mut Vec<u8>, v: u16) {
    b.extend_from_slice(&v.to_le_bytes());
}

fn chunk(id: u32, version: u32, payload: &[u8]) -> Vec<u8> {
    let mut b = Vec::new();
    push_u32(&mut b, id);
    push_u32(&mut b, payload.len() as u32);
    push_u32(&mut b, version);
    b.extend_from_slice(payload);
    b
}

/// A frame record whose matrix words are `seed`, `seed + 1`, ...
fn frame_record(b: &mut Vec<u8>, seed: u32, parent: i32) {
    for w in 0..12 {
        push_u32(b, seed + w);
    }
    push_u32(b, parent as u32);
    push_u32(b, 0);
}

fn matrix_of_seed(seed: u32) -> Matrix {
    Matrix {
        right: Vec3(seed, seed + 1, seed + 2),
        top: Vec3(seed + 3, seed + 4, seed + 5),
        at: Vec3(seed + 6, seed + 7, seed + 8),
        pos: Vec3(seed + 9, seed + 10, seed + 11),
    }
}

/// A frame list of the given parents; `names[i]`, when set, rides in frame
/// `i`'s extension region as a node-name plugin.
fn framelist_chunk(version: u32, parents: &[i32], names: &[Option<&[u8]>]) -> Vec<u8> {
    let mut count = Vec::new();
    push_u32(&mut count, parents.len() as u32);
    let mut b = chunk(0x0001, version, &count);
    for (i, &p) in parents.iter().enumerate() {
        frame_record(&mut b, (i as u32) * 100, p);
    }
    for nm in names {
        match nm {
            None => b.extend_from_slice(&chunk(0x0003, version, &[])),
            Some(n) => {
                let inner = chunk(0x0253F2FE, version, n);
                b.extend_from_slice(&chunk(0x0003, version, &inner));
            },
        }
    }
    chunk(0x000E, version, &b)
}

/// A material with no texture; the color tells materials apart.
fn material_chunk(version: u32, color: [u8; 4]) -> Vec<u8> {
    let mut s = Vec::new();
    push_u32(&mut s, 0);
    s.extend_from_slice(&color);
    push_u32(&mut s, 0);
    push_u32(&mut s, 0);
    push_u32(&mut s, 0x3F800000);
    push_u32(&mut s, 0x3F800000);
    push_u32(&mut s, 0x3F800000);
    let mut b = chunk(0x0001, version, &s);
    b.extend_from_slice(&chunk(0x0003, version, &[]));
    chunk(0x0007, version, &b)
}

/// A material list over the given ids, with one fresh material body per
/// negative id, in order.
fn matlist_chunk(version: u32, ids: &[i32], mats: &[Vec<u8>]) -> Vec<u8> {
    let mut s = Vec::new();
    push_u32(&mut s, ids.len() as u32);
    for &id in ids {
        push_u32(&mut s, id as u32);
    }
    let mut b = chunk(0x0001, version, &s);
    for m in mats {
        b.extend_from_slice(m);
    }
    chunk(0x0008, version, &b)
}

/// A mesh-list plugin over `meshes` = (material slot, indices).
fn meshlist_plugin(version: u32, total: u32, meshes: &[(u32, Vec<u16>)]) -> Vec<u8> {
    let mut p = Vec::new();
    push_u32(&mut p, 1);
    push_u32(&mut p, meshes.len() as u32);
    push_u32(&mut p, total);
    for (matid, idx) in meshes {
        push_u32(&mut p, idx.len() as u32);
        push_u32(&mut p, *matid);
        for &i in idx {
            push_u32(&mut p, i as u32);
        }
    }
    chunk(0x050E, version, &p)
}

/// A geometry with per-vertex colors only (flags bit 3), no coordinate
/// sets, faces or morph targets, a one-material list, and the given
/// extension payload.
fn geometry_chunk(version: u32, colors: &[[u8; 4]], ext_payload: &[u8]) -> Vec<u8> {
    let mut s = Vec::new();
    push_u16(&mut s, 8);
    s.push(0);
    s.push(0);
    push_u32(&mut s, 0);
    push_u32(&mut s, colors.len() as u32);
    push_u32(&mut s, 0);
    if version <= 0x1003FFFF {
        push_u32(&mut s, 0x3F000000);
        push_u32(&mut s, 0x3F000000);
        push_u32(&mut s, 0x3F000000);
    }
    for c in colors {
        s.extend_from_slice(c);
    }
    let mut b = chunk(0x0001, version, &s);
    b.extend_from_slice(&matlist_chunk(version, &[-1], &[material_chunk(version, [1, 2, 3, 4])]));
    b.extend_from_slice(&chunk(0x0003, version, ext_payload));
    chunk(0x000F, version, &b)
}

#[test]
fn straight_chain_world_transform_is_product_of_locals() {
    // A chain of four records, record i parented to record i - 1: the world
    // transform factors of the last record are all four local matrices in
    // record order, and record 0's factors are its own matrix alone.
    let version = 0x1803FFFF;
    let data = framelist_chunk(version, &[-1, 0, 1, 2], &[None, None, None, None]);
    let mut rws = Stream::new(data);
    let fl = FrameList::read(&mut rws).unwrap();
    assert_eq!(fl.0.len(), 4);
    let chain = fl.world_chain(3);
    assert_eq!(chain.len(), 4);
    for i in 0..4 {
        assert_eq!(chain[i], matrix_of_seed((i as u32) * 100));
    }
    let root_chain = fl.world_chain(0);
    assert_eq!(root_chain, vec![matrix_of_seed(0)]);
}

#[test]
fn frame_names_attach_by_position() {
    let version = 0x1803FFFF;
    let data = framelist_chunk(version, &[-1, 0], &[None, Some(b"child01")]);
    let mut rws = Stream::new(data);
    let fl = FrameList::read(&mut rws).unwrap();
    assert_eq!(fl.0[0].name, Vec::<u8>::new());
    assert_eq!(fl.0[1].name, b"child01".to_vec());
    assert_eq!(fl.0[0].parent, None);
    assert_eq!(fl.0[1].parent, Some(0));
}

#[test]
fn empty_extension_region_leaves_name_empty() {
    // A region of declared size zero decodes to no name and no inner read.
    let version = 0x1803FFFF;
    let data = framelist_chunk(version, &[-1], &[None]);
    let mut rws = Stream::new(data);
    let fl = FrameList::read(&mut rws).unwrap();
    assert_eq!(fl.0[0].name, Vec::<u8>::new());
    assert_eq!(rws.pos(), rws.len());
}

#[test]
fn framelist_get_is_by_index() {
    let version = 0x1803FFFF;
    let data = framelist_chunk(version, &[-1, 0], &[None, None]);
    let mut rws = Stream::new(data);
    let fl = FrameList::read(&mut rws).unwrap();
    assert_eq!(fl.len(), 2);
    assert_eq!(fl.get(1).unwrap().parent, Some(0));
    assert!(fl.get(2).is_none());
}

#[test]
fn forward_parent_reference_is_invalid() {
    // Record 0 naming record 1 as its parent points forward; the decode
    // must fail rather than leave a dangling link.
    let version = 0x1803FFFF;
    let data = framelist_chunk(version, &[1, -1], &[None, None]);
    let mut rws = Stream::new(data);
    assert!(matches!(FrameList::read(&mut rws), Err(Error::InvalidBackReference)));
}

#[test]
fn material_list_aliases_share_identity() {
    // Ids [-1, 0, -1, 1]: slots 1 and 3 alias slots 0 and 2, and exactly
    // two fresh materials are decoded (one per negative id).
    let version = 0x1803FFFF;
    let inst = Instance::new();
    let data = matlist_chunk(
        version,
        &[-1, 0, -1, 1],
        &[material_chunk(version, [10, 0, 0, 255]), material_chunk(version, [20, 0, 0, 255])],
    );
    let mut rws = Stream::new(data);
    let ml = MaterialList::read(&mut rws, &inst).unwrap();
    assert_eq!(ml.len(), 4);
    assert_eq!(ml.fresh.len(), 2);
    let m0 = ml.get(0).unwrap();
    let m1 = ml.get(1).unwrap();
    let m2 = ml.get(2).unwrap();
    let m3 = ml.get(3).unwrap();
    assert!(Rc::ptr_eq(&m0, &m1));
    assert!(Rc::ptr_eq(&m2, &m3));
    assert!(!Rc::ptr_eq(&m0, &m2));
    assert_eq!(m0.color, rwstream::Rgba(10, 0, 0, 255));
    assert_eq!(m2.color, rwstream::Rgba(20, 0, 0, 255));
}

#[test]
fn material_alias_out_of_range_is_invalid() {
    // A non-negative id must point below its own slot.
    let version = 0x1803FFFF;
    let inst = Instance::new();
    let data = matlist_chunk(version, &[2], &[]);
    let mut rws = Stream::new(data);
    assert!(matches!(MaterialList::read(&mut rws, &inst), Err(Error::InvalidBackReference)));
}

#[test]
fn geometry_legacy_version_consumes_reflectance_triple() {
    // At or below the legacy threshold the three floats sit between the
    // morph-target count and the color block; the colors must still come
    // out right, which fails if the twelve bytes are not consumed.
    let version = 0x10000000;
    let inst = Instance::new();
    let data = geometry_chunk(version, &[[9, 8, 7, 6]], &meshlist_plugin(version, 0, &[]));
    let mut rws = Stream::new(data);
    let g = Geometry::read(&mut rws, &inst).unwrap();
    assert_eq!(g.colors.as_ref().unwrap()[0], rwstream::Rgba(9, 8, 7, 6));
    assert_eq!(rws.pos(), rws.len());
}

#[test]
fn geometry_modern_version_has_no_reflectance_triple() {
    // Above the threshold the color block follows the fixed head directly.
    let version = 0x1803FFFF;
    let inst = Instance::new();
    let data = geometry_chunk(version, &[[9, 8, 7, 6]], &meshlist_plugin(version, 0, &[]));
    let mut rws = Stream::new(data);
    let g = Geometry::read(&mut rws, &inst).unwrap();
    assert_eq!(g.colors.as_ref().unwrap()[0], rwstream::Rgba(9, 8, 7, 6));
    assert_eq!(rws.pos(), rws.len());
}

#[test]
fn geometry_streams_follow_flags_and_counts() {
    // Two vertices, strip flag, positions, colors, normals, one coordinate
    // set, one face, one morph target.
    let version = 0x1803FFFF;
    let inst = Instance::new();
    let mut s = Vec::new();
    push_u16(&mut s, 1 | 2 | 8 | 16);
    s.push(1);
    s.push(0);
    push_u32(&mut s, 1);
    push_u32(&mut s, 2);
    push_u32(&mut s, 1);
    // colors
    s.extend_from_slice(&[1, 2, 3, 4]);
    s.extend_from_slice(&[5, 6, 7, 8]);
    // one coordinate set of two pairs
    for w in 0..4u32 {
        push_u32(&mut s, 0x40000000 + w);
    }
    // one face
    push_u16(&mut s, 1);
    push_u16(&mut s, 0);
    push_u16(&mut s, 0);
    push_u16(&mut s, 1);
    // one morph target: sphere, two reserved words, positions, normals
    for w in 0..4u32 {
        push_u32(&mut s, 0x41000000 + w);
    }
    push_u32(&mut s, 0);
    push_u32(&mut s, 0);
    for w in 0..6u32 {
        push_u32(&mut s, 0x42000000 + w);
    }
    for w in 0..6u32 {
        push_u32(&mut s, 0x43000000 + w);
    }
    let mut b = chunk(0x0001, version, &s);
    b.extend_from_slice(&matlist_chunk(version, &[-1], &[material_chunk(version, [1, 2, 3, 4])]));
    b.extend_from_slice(&chunk(0x0003, version, &meshlist_plugin(version, 0, &[])));
    let data = chunk(0x000F, version, &b);
    let mut rws = Stream::new(data);
    let g = Geometry::read(&mut rws, &inst).unwrap();
    assert!(g.is_tri_strip);
    assert_eq!(g.colors.as_ref().unwrap().len(), 2);
    assert_eq!(g.colors.as_ref().unwrap()[1], rwstream::Rgba(5, 6, 7, 8));
    assert_eq!(g.uv_sets.len(), 1);
    assert_eq!(g.uv_sets[0].len(), 2);
    assert_eq!(g.uv_sets[0][1], rwstream::Uv(0x40000002, 0x40000003));
    assert_eq!(g.faces.len(), 1);
    assert_eq!(g.faces[0].mat_id, 0);
    assert_eq!(g.faces[0].y_id, 1);
    assert_eq!(g.targets.len(), 1);
    let t = &g.targets[0];
    assert_eq!(t.sphere.radius, 0x41000003);
    assert_eq!(t.verts.as_ref().unwrap().len(), 2);
    assert_eq!(t.verts.as_ref().unwrap()[0], Vec3(0x42000000, 0x42000001, 0x42000002));
    assert_eq!(t.normals.as_ref().unwrap()[1], Vec3(0x43000003, 0x43000004, 0x43000005));
    assert_eq!(rws.pos(), rws.len());
}

#[test]
fn geometry_without_meshlist_plugin_fails() {
    // An empty extension region carries no mesh-list plugin; the decoder
    // must fail rather than derive meshes from the face list.
    let version = 0x1803FFFF;
    let inst = Instance::new();
    let data = geometry_chunk(version, &[[9, 8, 7, 6]], &[]);
    let mut rws = Stream::new(data);
    assert!(matches!(Geometry::read(&mut rws, &inst), Err(Error::SectionNotFound(0x050E))));
}

#[test]
fn mesh_indices_and_material_resolve() {
    let version = 0x1803FFFF;
    let inst = Instance::new();
    let plugin = meshlist_plugin(version, 3, &[(0, vec![2, 1, 0])]);
    let data = geometry_chunk(version, &[[9, 8, 7, 6]], &plugin);
    let mut rws = Stream::new(data);
    let g = Geometry::read(&mut rws, &inst).unwrap();
    assert_eq!(g.meshlist.total_indices, 3);
    assert_eq!(g.meshlist.meshes.len(), 1);
    assert_eq!(g.meshlist.meshes[0].indices, vec![2, 1, 0]);
    assert_eq!(g.meshlist.meshes[0].mat.color, rwstream::Rgba(1, 2, 3, 4));
}

#[test]
fn mesh_material_slot_out_of_range_fails() {
    let version = 0x1803FFFF;
    let inst = Instance::new();
    let plugin = meshlist_plugin(version, 0, &[(5, vec![])]);
    let data = geometry_chunk(version, &[[9, 8, 7, 6]], &plugin);
    let mut rws = Stream::new(data);
    assert!(matches!(Geometry::read(&mut rws, &inst), Err(Error::InvalidBackReference)));
}

#[test]
fn clump_assembles_frames_geometries_and_atomics() {
    let version = 0x1803FFFF;
    let inst = Instance::new();
    let mut body = Vec::new();
    let mut counts = Vec::new();
    push_u32(&mut counts, 1);
    push_u32(&mut counts, 0);
    push_u32(&mut counts, 0);
    body.extend_from_slice(&chunk(0x0001, version, &counts));
    body.extend_from_slice(&framelist_chunk(version, &[-1], &[Some(b"root")]));
    // geometry list holding one geometry
    let mut gl = Vec::new();
    let mut count = Vec::new();
    push_u32(&mut count, 1);
    gl.extend_from_slice(&chunk(0x0001, version, &count));
    gl.extend_from_slice(&geometry_chunk(version, &[[9, 8, 7, 6]], &meshlist_plugin(version, 0, &[])));
    body.extend_from_slice(&chunk(0x001A, version, &gl));
    // one atomic referencing frame 0, geometry 0
    let mut astruct = Vec::new();
    push_u32(&mut astruct, 0);
    push_u32(&mut astruct, 0);
    push_u32(&mut astruct, 0x5);
    push_u32(&mut astruct, 0);
    let mut ab = chunk(0x0001, version, &astruct);
    ab.extend_from_slice(&chunk(0x0003, version, &[]));
    body.extend_from_slice(&chunk(0x0014, version, &ab));
    body.extend_from_slice(&chunk(0x0003, version, &[]));
    let data = chunk(0x0010, version, &body);
    let mut rws = Stream::new(data);
    let c = Clump::read(&mut rws, &inst).unwrap();
    assert_eq!(c.atomics.len(), 1);
    assert_eq!(c.frames.0.len(), 1);
    assert_eq!(c.frames.0[0].name, b"root".to_vec());
    assert_eq!(c.atomics[0].frame, Some(0));
    assert!(c.atomics[0].flags.collision_test());
    assert!(c.atomics[0].flags.render());
    assert_eq!(c.atomics[0].geometry.colors.as_ref().unwrap()[0], rwstream::Rgba(9, 8, 7, 6));
    assert_eq!(rws.pos(), rws.len());
}

#[test]
fn atomic_with_empty_geometry_list_reads_inline_geometry() {
    let version = 0x1803FFFF;
    let inst = Instance::new();
    let mut body = Vec::new();
    let mut counts = Vec::new();
    push_u32(&mut counts, 1);
    push_u32(&mut counts, 0);
    push_u32(&mut counts, 0);
    body.extend_from_slice(&chunk(0x0001, version, &counts));
    body.extend_from_slice(&framelist_chunk(version, &[-1], &[None]));
    let mut gl = Vec::new();
    let mut count = Vec::new();
    push_u32(&mut count, 0);
    gl.extend_from_slice(&chunk(0x0001, version, &count));
    body.extend_from_slice(&chunk(0x001A, version, &gl));
    let mut astruct = Vec::new();
    push_u32(&mut astruct, 0);
    push_u32(&mut astruct, 7);
    push_u32(&mut astruct, 0x4);
    push_u32(&mut astruct, 0);
    let mut ab = chunk(0x0001, version, &astruct);
    ab.extend_from_slice(&geometry_chunk(version, &[[1, 1, 2, 2]], &meshlist_plugin(version, 0, &[])));
    ab.extend_from_slice(&chunk(0x0003, version, &[]));
    body.extend_from_slice(&chunk(0x0014, version, &ab));
    body.extend_from_slice(&chunk(0x0003, version, &[]));
    let data = chunk(0x0010, version, &body);
    let mut rws = Stream::new(data);
    let c = Clump::read(&mut rws, &inst).unwrap();
    assert_eq!(c.atomics.len(), 1);
    assert_eq!(c.atomics[0].geometry.colors.as_ref().unwrap()[0], rwstream::Rgba(1, 1, 2, 2));
    assert!(!c.atomics[0].flags.collision_test());
    assert!(c.atomics[0].flags.render());
}

#[test]
fn clump_into_atomic_pops_the_last() {
    let version = 0x1803FFFF;
    let inst = Instance::new();
    let mut body = Vec::new();
    let mut counts = Vec::new();
    push_u32(&mut counts, 1);
    push_u32(&mut counts, 0);
    push_u32(&mut counts, 0);
    body.extend_from_slice(&chunk(0x0001, version, &counts));
    body.extend_from_slice(&framelist_chunk(version, &[-1], &[None]));
    let mut gl = Vec::new();
    let mut count = Vec::new();
    push_u32(&mut count, 1);
    gl.extend_from_slice(&chunk(0x0001, version, &count));
    gl.extend_from_slice(&geometry_chunk(version, &[[3, 3, 3, 3]], &meshlist_plugin(version, 0, &[])));
    body.extend_from_slice(&chunk(0x001A, version, &gl));
    let mut astruct = Vec::new();
    push_u32(&mut astruct, 0);
    push_u32(&mut astruct, 0);
    push_u32(&mut astruct, 0);
    push_u32(&mut astruct, 0);
    let mut ab = chunk(0x0001, version, &astruct);
    ab.extend_from_slice(&chunk(0x0003, version, &[]));
    body.extend_from_slice(&chunk(0x0014, version, &ab));
    body.extend_from_slice(&chunk(0x0003, version, &[]));
    let data = chunk(0x0010, version, &body);
    let mut rws = Stream::new(data);
    let c = Clump::read(&mut rws, &inst).unwrap();
    let a = c.into_atomic().unwrap();
    assert_eq!(a.geometry.colors.as_ref().unwrap()[0], rwstream::Rgba(3, 3, 3, 3));
}
