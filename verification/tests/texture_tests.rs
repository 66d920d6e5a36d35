use std::rc::Rc;

use rwstream::{
    Error, FilterMode, Instance, Raster, RasterFormat, SimpleTexture, Stream, TexDictionary,
    TexLevel, TexNative, Texture, TextureData, WrapMode,
};

fn push_u32(b: &mut Vec<u8>, v: u32) {
    b.extend_from_slice(&v.to_le_bytes());
}

fn push_u16(b: &mut Vec<u8>, v: u16) {
    b.extend_from_slice(&v.to_le_bytes());
}

fn chunk(id: u32, version: u32, payload: &[u8]) -> Vec<u8> {
    let mut b = Vec::new();
    push_u32(&mut b, id);
    push_u32(&mut b, payload.len() as u32);
    push_u32(&mut b, version);
    b.extend_from_slice(payload);
    b
}

fn string_chunk(s: &[u8], version: u32) -> Vec<u8> {
    let mut p = s.to_vec();
    p.push(0);
    chunk(0x0002, version, &p)
}

fn name32(name: &[u8]) -> Vec<u8> {
    let mut b = name.to_vec();
    while b.len() < 32 {
        b.push(0);
    }
    b
}

/// One native texture with a DXT1 (no alpha) raster of the given levels,
/// each level a (declared size, bytes) pair.
fn texnative_chunk(
    version: u32,
    platform: u32,
    name: &[u8],
    width: u16,
    height: u16,
    levels: &[(u32, Vec<u8>)],
) -> Vec<u8> {
    let mut s = Vec::new();
    push_u32(&mut s, platform);
    push_u32(&mut s, 0x1102);
    s.extend_from_slice(&name32(name));
    s.extend_from_slice(&name32(b""));
    push_u32(&mut s, 0x0200);
    push_u32(&mut s, 0);
    push_u16(&mut s, width);
    push_u16(&mut s, height);
    s.push(16);
    s.push(levels.len() as u8);
    s.push(4);
    s.push(0x08);
    for (size, bytes) in levels {
        push_u32(&mut s, *size);
        s.extend_from_slice(bytes);
    }
    let mut b = chunk(0x0001, version, &s);
    b.extend_from_slice(&chunk(0x0003, version, &[]));
    chunk(0x0015, version, &b)
}

/// A texture dictionary over the given native texture chunks; the long
/// 32-bit count encoding is used below the version threshold, the short
/// 16-bit one at or above it.
fn texdict_chunk(version: u32, natives: &[Vec<u8>]) -> Vec<u8> {
    let mut s = Vec::new();
    if version < 0x1803FFFF {
        push_u32(&mut s, natives.len() as u32);
    } else {
        push_u16(&mut s, natives.len() as u16);
        push_u16(&mut s, 0);
    }
    let mut b = chunk(0x0001, version, &s);
    for n in natives {
        b.extend_from_slice(n);
    }
    b.extend_from_slice(&chunk(0x0003, version, &[]));
    chunk(0x0016, version, &b)
}

/// A texture reference naming the given texture.
fn texture_ref_chunk(version: u32, name: &[u8]) -> Vec<u8> {
    let mut s = Vec::new();
    push_u16(&mut s, 0x0002);
    push_u16(&mut s, 0);
    let mut b = chunk(0x0001, version, &s);
    b.extend_from_slice(&string_chunk(name, version));
    b.extend_from_slice(&string_chunk(b"", version));
    b.extend_from_slice(&chunk(0x0003, version, &[]));
    chunk(0x0006, version, &b)
}

#[test]
fn filter_and_wrap_modes_decode_exactly() {
    assert_eq!(FilterMode::from_raw(0), Some(FilterMode::NoFilter));
    assert_eq!(FilterMode::from_raw(2), Some(FilterMode::Linear));
    assert_eq!(FilterMode::from_raw(6), Some(FilterMode::LinearMipLinear));
    assert_eq!(FilterMode::from_raw(7), None);
    assert_eq!(WrapMode::from_raw(1), Some(WrapMode::Repeat));
    assert_eq!(WrapMode::from_raw(4), Some(WrapMode::Border));
    assert_eq!(WrapMode::from_raw(5), None);
    assert_eq!(RasterFormat::from_raw(0x0200), Some(RasterFormat::R5G6B5));
    assert_eq!(RasterFormat::from_raw(0x1203), Some(RasterFormat::R5G6B5));
    assert_eq!(RasterFormat::from_raw(0x0A00), Some(RasterFormat::R5G5B5));
    assert_eq!(RasterFormat::from_raw(0x0700), None);
}

#[test]
fn raster_getters_follow_base_level() {
    let base = TexLevel { data: TextureData::Dxt1c(vec![1, 2]), width: 64, height: 32 };
    let r = Raster::with_base(base);
    assert_eq!(r.width(), 64);
    assert_eq!(r.height(), 32);
    assert_eq!(r.num_mipmaps(), 0);
    match &r.base().data {
        TextureData::Dxt1c(v) => assert_eq!(v, &vec![1, 2]),
        _ => panic!("wrong level kind"),
    }
}

#[test]
fn texnative_decodes_mip_chain_with_halving_dimensions() {
    let version = 0x1803FFFF;
    let levels = vec![(8u32, vec![1u8; 8]), (8u32, vec![2u8; 8])];
    let data = texnative_chunk(version, 9, b"brick", 16, 8, &levels);
    let mut rws = Stream::new(data);
    let st = TexNative::read(&mut rws).unwrap();
    assert_eq!(st.name, b"brick".to_vec());
    assert_eq!(st.raster.mips.len(), 2);
    assert_eq!(st.raster.mips[0].width, 16);
    assert_eq!(st.raster.mips[0].height, 8);
    assert_eq!(st.raster.mips[1].width, 8);
    assert_eq!(st.raster.mips[1].height, 4);
    assert_eq!(st.filter, FilterMode::Linear);
    assert_eq!(st.wrap_x, WrapMode::Repeat);
    assert_eq!(st.wrap_y, WrapMode::Repeat);
    assert_eq!(rws.pos(), rws.len());
}

#[test]
fn zero_size_mip_level_stops_the_chain_without_error() {
    // Level 2 of 4 declares zero bytes: exactly levels 0 and 1 are kept,
    // the remaining declared levels are still passed over, and the decode
    // succeeds.
    let version = 0x1803FFFF;
    let levels = vec![
        (8u32, vec![1u8; 8]),
        (8u32, vec![2u8; 8]),
        (0u32, Vec::new()),
        (8u32, vec![4u8; 8]),
    ];
    let data = texnative_chunk(version, 8, b"quirk", 32, 32, &levels);
    let mut rws = Stream::new(data);
    let st = TexNative::read(&mut rws).unwrap();
    assert_eq!(st.raster.mips.len(), 2);
    assert_eq!(st.raster.mips[1].width, 16);
    assert_eq!(rws.pos(), rws.len());
}

#[test]
fn unsupported_platform_tag_fails() {
    let version = 0x1803FFFF;
    let data = texnative_chunk(version, 5, b"xbox", 16, 16, &[(8, vec![0; 8])]);
    let mut rws = Stream::new(data);
    assert!(matches!(TexNative::read(&mut rws), Err(Error::UnsupportedPlatform(5))));
}

#[test]
fn paletted_raster_format_fails() {
    let version = 0x1803FFFF;
    let mut s = Vec::new();
    push_u32(&mut s, 8);
    push_u32(&mut s, 0);
    s.extend_from_slice(&name32(b"pal"));
    s.extend_from_slice(&name32(b""));
    push_u32(&mut s, 0x2200);
    push_u32(&mut s, 0);
    push_u16(&mut s, 16);
    push_u16(&mut s, 16);
    s.push(8);
    s.push(1);
    s.push(4);
    s.push(0x08);
    push_u32(&mut s, 8);
    s.extend_from_slice(&[0; 8]);
    let mut b = chunk(0x0001, version, &s);
    b.extend_from_slice(&chunk(0x0003, version, &[]));
    let data = chunk(0x0015, version, &b);
    let mut rws = Stream::new(data);
    assert!(matches!(TexNative::read(&mut rws), Err(Error::UnsupportedFormat(0x2200))));
}

#[test]
fn dictionary_long_count_below_version_threshold() {
    let version = 0x10000000;
    let natives = vec![texnative_chunk(version, 8, b"wall01", 16, 16, &[(8, vec![7; 8])])];
    let data = texdict_chunk(version, &natives);
    let mut rws = Stream::new(data);
    let dict = TexDictionary::read(&mut rws, b"walls".to_vec()).unwrap();
    assert_eq!(dict.textures.len(), 1);
    assert_eq!(dict.textures[0].name, b"wall01".to_vec());
    assert_eq!(*dict.textures[0].dict, b"walls".to_vec());
    assert_eq!(rws.pos(), rws.len());
}

#[test]
fn dictionary_short_count_at_version_threshold() {
    let version = 0x1803FFFF;
    let natives = vec![texnative_chunk(version, 8, b"wall01", 16, 16, &[(8, vec![7; 8])])];
    let data = texdict_chunk(version, &natives);
    let mut rws = Stream::new(data);
    let dict = TexDictionary::read(&mut rws, b"walls".to_vec()).unwrap();
    assert_eq!(dict.textures.len(), 1);
    assert_eq!(rws.pos(), rws.len());
}

#[test]
fn lookup_is_case_insensitive_and_shares_the_texture() {
    let version = 0x1803FFFF;
    let natives = vec![texnative_chunk(version, 8, b"wall01", 16, 16, &[(8, vec![7; 8])])];
    let data = texdict_chunk(version, &natives);
    let mut rws = Stream::new(data);
    let dict = TexDictionary::read(&mut rws, b"walls".to_vec()).unwrap();
    let stored = Rc::clone(&dict.textures[0]);
    let found = dict.read_texture(b"WALL01", None).unwrap();
    assert!(Rc::ptr_eq(&stored, &found));
    assert!(dict.read_texture(b"wall02", None).is_none());
}

#[test]
fn duplicate_names_resolve_to_the_last_inserted() {
    let version = 0x1803FFFF;
    let natives = vec![
        texnative_chunk(version, 8, b"twin", 16, 16, &[(8, vec![1; 8])]),
        texnative_chunk(version, 8, b"TWIN", 16, 16, &[(8, vec![2; 8])]),
    ];
    let data = texdict_chunk(version, &natives);
    let mut rws = Stream::new(data);
    let dict = TexDictionary::read(&mut rws, b"d".to_vec()).unwrap();
    let found = dict.read_texture(b"twin", None).unwrap();
    assert!(Rc::ptr_eq(&found, &dict.textures[1]));
}

#[test]
fn unbound_session_fails_texture_resolution() {
    // Decoding a texture reference with no dictionary bound must fail with
    // the requested name, never yield a silently blank texture.
    let version = 0x1803FFFF;
    let inst = Instance::new();
    let data = texture_ref_chunk(version, b"wall01");
    let mut rws = Stream::new(data);
    match Texture::read(&mut rws, &inst) {
        Err(Error::TextureNotFound(name)) => assert_eq!(name, b"wall01".to_vec()),
        _ => panic!("expected a missing texture"),
    }
}

#[test]
fn bound_session_resolves_case_insensitively_by_shared_reference() {
    let version = 0x1803FFFF;
    let natives = vec![texnative_chunk(version, 8, b"wall01", 16, 16, &[(8, vec![7; 8])])];
    let dict_data = texdict_chunk(version, &natives);
    let mut drws = Stream::new(dict_data);
    let dict = TexDictionary::read(&mut drws, b"walls".to_vec()).unwrap();
    let mut inst = Instance::new();
    inst.bind_dictionary(&dict);
    let data = texture_ref_chunk(version, b"WALL01");
    let mut rws = Stream::new(data);
    let tex = Texture::read(&mut rws, &inst).unwrap();
    assert!(Rc::ptr_eq(&tex, &dict.textures[0]));
    assert_eq!(rws.pos(), rws.len());
}

#[test]
fn unbinding_restores_the_unbound_failure() {
    let version = 0x1803FFFF;
    let natives = vec![texnative_chunk(version, 8, b"wall01", 16, 16, &[(8, vec![7; 8])])];
    let dict_data = texdict_chunk(version, &natives);
    let mut drws = Stream::new(dict_data);
    let dict = TexDictionary::read(&mut drws, b"walls".to_vec()).unwrap();
    let mut inst = Instance::new();
    inst.bind_dictionary(&dict);
    assert!(inst.read_texture(b"wall01", None).is_some());
    inst.unbind_dictionary();
    assert!(inst.read_texture(b"wall01", None).is_none());
}

#[test]
fn from_simple_ties_the_dictionary_name() {
    let base = TexLevel { data: TextureData::Dxt1c(vec![0; 8]), width: 4, height: 4 };
    let simple = SimpleTexture {
        name: b"n".to_vec(),
        mask: b"m".to_vec(),
        raster: Raster::with_base(base),
        filter: FilterMode::Nearest,
        wrap_x: WrapMode::Clamp,
        wrap_y: WrapMode::Mirror,
    };
    let tex = Texture::from_simple(Rc::new(b"dict".to_vec()), simple);
    assert_eq!(*tex.dict, b"dict".to_vec());
    assert_eq!(tex.name, b"n".to_vec());
    assert_eq!(tex.filter, FilterMode::Nearest);
}

#[test]
fn empty_dictionary_has_a_name_and_no_textures() {
    let dict = TexDictionary::new_empty(b"empty".to_vec());
    assert_eq!(*dict.name, b"empty".to_vec());
    assert!(dict.textures.is_empty());
    assert!(dict.read_texture(b"x", None).is_none());
}
