//! Textures: block-compressed rasters with mip chains, named textures, and
//! the texture dictionary that texture references resolve against.
//!
//! A texture reference inside a material names its texture; the raster
//! bytes themselves live in a dictionary decoded separately and bound to
//! the decode session.  Lookup is case-insensitive under ASCII lower-casing.

use vstd::prelude::*;

use std::rc::Rc;

use crate::{rc_clone, Error, ErrorV};
use crate::section::{ascii_lower, bytes_eq, from_null_terminated_buffer, spec_null_terminated,
    spec_peek_struct_u32, spec_rw_string, to_lowercase_bytes, Extension, Struct, ID_EXTENSION,
    ID_STRUCT};
use crate::session::Instance;
use crate::stream::{le16, le32, spec_read_header_expecting, spec_skip_section_expecting, Stream};

verus! {

pub const ID_TEXTURE: u32 = 0x0006;

pub const ID_TEX_DICTIONARY: u32 = 0x0016;

pub const ID_TEX_NATIVE: u32 = 0x0015;

/// Texture sampling filter, as stored in the low byte of the filter word.
#[derive(Debug, Copy, Clone, PartialEq, Eq, Structural)]
pub enum FilterMode {
    NoFilter,
    Nearest,
    Linear,
    MipNearest,
    MipLinear,
    LinearMipNearest,
    LinearMipLinear,
}

/// Texture addressing mode, one nibble per axis in the filter word.
#[derive(Debug, Copy, Clone, PartialEq, Eq, Structural)]
pub enum WrapMode {
    NoWrap,
    Repeat,
    Mirror,
    Clamp,
    Border,
}

/// Pixel layout selected by the high nibble of a raster-format word.
#[derive(Debug, Copy, Clone, PartialEq, Eq, Structural)]
pub enum RasterFormat {
    R5G5B5A1,
    R5G6B5,
    R4G4B4A4,
    A8L8,
    R8G8B8A8,
    R8G8B8,
    R5G5B5,
}

/// What `FilterMode::from_raw` yields for each raw value.
pub open spec fn spec_filter_from_raw(raw: u32) -> Option<FilterMode> {
    if raw == 0 {
        Some(FilterMode::NoFilter)
    } else if raw == 1 {
        Some(FilterMode::Nearest)
    } else if raw == 2 {
        Some(FilterMode::Linear)
    } else if raw == 3 {
        Some(FilterMode::MipNearest)
    } else if raw == 4 {
        Some(FilterMode::MipLinear)
    } else if raw == 5 {
        Some(FilterMode::LinearMipNearest)
    } else if raw == 6 {
        Some(FilterMode::LinearMipLinear)
    } else {
        None
    }
}

/// What `WrapMode::from_raw` yields for each raw value.
pub open spec fn spec_wrap_from_raw(raw: u32) -> Option<WrapMode> {
    if raw == 0 {
        Some(WrapMode::NoWrap)
    } else if raw == 1 {
        Some(WrapMode::Repeat)
    } else if raw == 2 {
        Some(WrapMode::Mirror)
    } else if raw == 3 {
        Some(WrapMode::Clamp)
    } else if raw == 4 {
        Some(WrapMode::Border)
    } else {
        None
    }
}

/// What `RasterFormat::from_raw` yields: the pixel layout selected by bits
/// 8 to 11 of the raster-format word.
pub open spec fn spec_raster_format_from_raw(raw: u32) -> Option<RasterFormat> {
    let nibble = raw & 0x0F00;
    if nibble == 0x0100 {
        Some(RasterFormat::R5G5B5A1)
    } else if nibble == 0x0200 {
        Some(RasterFormat::R5G6B5)
    } else if nibble == 0x0300 {
        Some(RasterFormat::R4G4B4A4)
    } else if nibble == 0x0400 {
        Some(RasterFormat::A8L8)
    } else if nibble == 0x0500 {
        Some(RasterFormat::R8G8B8A8)
    } else if nibble == 0x0600 {
        Some(RasterFormat::R8G8B8)
    } else if nibble == 0x0A00 {
        Some(RasterFormat::R5G5B5)
    } else {
        None
    }
}

impl FilterMode {
    /// Decode a raw filter value; unknown values yield `None`.
    pub fn from_raw(raw: u32) -> (r: Option<FilterMode>)
        ensures
            r == spec_filter_from_raw(raw),
    {
        if raw == 0 {
            Some(FilterMode::NoFilter)
        } else if raw == 1 {
            Some(FilterMode::Nearest)
        } else if raw == 2 {
            Some(FilterMode::Linear)
        } else if raw == 3 {
            Some(FilterMode::MipNearest)
        } else if raw == 4 {
            Some(FilterMode::MipLinear)
        } else if raw == 5 {
            Some(FilterMode::LinearMipNearest)
        } else if raw == 6 {
            Some(FilterMode::LinearMipLinear)
        } else {
            None
        }
    }
}

impl WrapMode {
    /// Decode a raw wrap value; unknown values yield `None`.
    pub fn from_raw(raw: u32) -> (r: Option<WrapMode>)
        ensures
            r == spec_wrap_from_raw(raw),
    {
        if raw == 0 {
            Some(WrapMode::NoWrap)
        } else if raw == 1 {
            Some(WrapMode::Repeat)
        } else if raw == 2 {
            Some(WrapMode::Mirror)
        } else if raw == 3 {
            Some(WrapMode::Clamp)
        } else if raw == 4 {
            Some(WrapMode::Border)
        } else {
            None
        }
    }
}

impl RasterFormat {
    /// Decode the pixel-layout nibble of a raster-format word; unknown
    /// layouts yield `None`.
    pub fn from_raw(raw: u32) -> (r: Option<RasterFormat>)
        ensures
            r == spec_raster_format_from_raw(raw),
    {
        let nibble = raw & 0x0F00;
        if nibble == 0x0100 {
            Some(RasterFormat::R5G5B5A1)
        } else if nibble == 0x0200 {
            Some(RasterFormat::R5G6B5)
        } else if nibble == 0x0300 {
            Some(RasterFormat::R4G4B4A4)
        } else if nibble == 0x0400 {
            Some(RasterFormat::A8L8)
        } else if nibble == 0x0500 {
            Some(RasterFormat::R8G8B8A8)
        } else if nibble == 0x0600 {
            Some(RasterFormat::R8G8B8)
        } else if nibble == 0x0A00 {
            Some(RasterFormat::R5G5B5)
        } else {
            None
        }
    }
}

/// One mip level's pixel payload, tagged by its compressed layout.
#[derive(Debug)]
pub enum TextureData {
    Dxt1a(Vec<u8>),
    Dxt1c(Vec<u8>),
    Dxt3(Vec<u8>),
    Dxt5(Vec<u8>),
    Rgb8(Vec<(u8, u8, u8)>),
}

/// Mathematical image of `TextureData`.
pub enum TextureDataV {
    Dxt1a(Seq<u8>),
    Dxt1c(Seq<u8>),
    Dxt3(Seq<u8>),
    Dxt5(Seq<u8>),
    Rgb8(Seq<(u8, u8, u8)>),
}

impl View for TextureData {
    type V = TextureDataV;

    open spec fn view(&self) -> TextureDataV {
        match self {
            TextureData::Dxt1a(v) => TextureDataV::Dxt1a(v@),
            TextureData::Dxt1c(v) => TextureDataV::Dxt1c(v@),
            TextureData::Dxt3(v) => TextureDataV::Dxt3(v@),
            TextureData::Dxt5(v) => TextureDataV::Dxt5(v@),
            TextureData::Rgb8(v) => TextureDataV::Rgb8(v@),
        }
    }
}

/// One mip level: pixel payload and its notional dimensions.
#[derive(Debug)]
pub struct TexLevel {
    pub data: TextureData,
    pub width: u16,
    pub height: u16,
}

/// Mathematical image of a `TexLevel`.
pub struct TexLevelV {
    pub data: TextureDataV,
    pub width: u16,
    pub height: u16,
}

impl View for TexLevel {
    type V = TexLevelV;

    open spec fn view(&self) -> TexLevelV {
        TexLevelV { data: self.data@, width: self.width, height: self.height }
    }
}

/// An ordered, non-empty sequence of mip levels; level 0 is the base.
#[derive(Debug)]
pub struct Raster {
    pub mips: Vec<TexLevel>,
}

/// Mathematical image of a `Raster`.
pub struct RasterV {
    pub mips: Seq<TexLevelV>,
}

impl View for Raster {
    type V = RasterV;

    open spec fn view(&self) -> RasterV {
        RasterV { mips: Seq::new(self.mips@.len(), |i: int| self.mips@[i]@) }
    }
}

impl Raster {
    /// A raster always holds at least its base level.
    pub open spec fn wf(&self) -> bool {
        self@.mips.len() > 0
    }

    /// Wrap an already-decoded mip chain; `mips` must not be empty, since a
    /// raster without a base level is not a meaningful value.
    pub fn new(mips: Vec<TexLevel>) -> (r: Raster)
        requires
            mips@.len() > 0,
        ensures
            r.wf(),
            r@.mips == Seq::new(mips@.len(), |i: int| mips@[i]@),
    {
        Raster { mips }
    }

    /// A raster of a single base level.
    pub fn with_base(base: TexLevel) -> (r: Raster)
        ensures
            r.wf(),
            r@.mips == seq![base@],
    {
        let mut mips: Vec<TexLevel> = Vec::new();
        let ghost basev = base@;
        mips.push(base);
        let r = Raster::new(mips);
        proof {
            assert(r@.mips =~= seq![basev]);
        }
        r
    }

    /// Width of the base level.
    pub fn width(&self) -> (r: u16)
        requires
            self.wf(),
        ensures
            r == self@.mips[0].width,
    {
        self.mips[0].width
    }

    /// Height of the base level.
    pub fn height(&self) -> (r: u16)
        requires
            self.wf(),
        ensures
            r == self@.mips[0].height,
    {
        self.mips[0].height
    }

    /// The base level itself.
    pub fn base(&self) -> (r: &TexLevel)
        requires
            self.wf(),
        ensures
            r@ == self@.mips[0],
    {
        &self.mips[0]
    }

    /// How many levels besides the base the raster carries.
    pub fn num_mipmaps(&self) -> (r: u32)
        requires
            self.wf(),
            self@.mips.len() <= 0x1_0000_0000,
        ensures
            r == self@.mips.len() - 1,
    {
        (self.mips.len() - 1) as u32
    }
}

/// A named texture: its dictionary's name, its own lookup name, a mask
/// name, its raster, and its sampling modes.
#[derive(Debug)]
pub struct Texture {
    pub dict: Rc<Vec<u8>>,
    pub name: Vec<u8>,
    pub mask: Vec<u8>,
    pub raster: Raster,
    pub filter: FilterMode,
    pub wrap_x: WrapMode,
    pub wrap_y: WrapMode,
}

/// Mathematical image of a `Texture`.
pub struct TextureV {
    pub dict: Seq<u8>,
    pub name: Seq<u8>,
    pub mask: Seq<u8>,
    pub raster: RasterV,
    pub filter: FilterMode,
    pub wrap_x: WrapMode,
    pub wrap_y: WrapMode,
}

impl View for Texture {
    type V = TextureV;

    open spec fn view(&self) -> TextureV {
        TextureV {
            dict: self.dict@,
            name: self.name@,
            mask: self.mask@,
            raster: self.raster@,
            filter: self.filter,
            wrap_x: self.wrap_x,
            wrap_y: self.wrap_y,
        }
    }
}

/// A texture decoded from a dictionary stream, not yet tied to the
/// dictionary's name.
#[derive(Debug)]
pub struct SimpleTexture {
    pub name: Vec<u8>,
    pub mask: Vec<u8>,
    pub raster: Raster,
    pub filter: FilterMode,
    pub wrap_x: WrapMode,
    pub wrap_y: WrapMode,
}

/// Mathematical image of a `SimpleTexture`.
pub struct SimpleTextureV {
    pub name: Seq<u8>,
    pub mask: Seq<u8>,
    pub raster: RasterV,
    pub filter: FilterMode,
    pub wrap_x: WrapMode,
    pub wrap_y: WrapMode,
}

impl View for SimpleTexture {
    type V = SimpleTextureV;

    open spec fn view(&self) -> SimpleTextureV {
        SimpleTextureV {
            name: self.name@,
            mask: self.mask@,
            raster: self.raster@,
            filter: self.filter,
            wrap_x: self.wrap_x,
            wrap_y: self.wrap_y,
        }
    }
}

/// A named, read-only collection of textures, built once from a dictionary
/// stream and then shared by every decode that needs to resolve a name.
#[derive(Debug)]
pub struct TexDictionary {
    pub name: Rc<Vec<u8>>,
    pub textures: Vec<Rc<Texture>>,
}

/// Mathematical image of a `TexDictionary`.
pub struct TexDictionaryV {
    pub name: Seq<u8>,
    pub textures: Seq<TextureV>,
}

impl View for TexDictionary {
    type V = TexDictionaryV;

    open spec fn view(&self) -> TexDictionaryV {
        TexDictionaryV {
            name: self.name@,
            textures: Seq::new(self.textures@.len(), |i: int| self.textures@[i]@),
        }
    }
}

/// Marker for the native (platform-tagged) texture section.
#[derive(Debug)]
pub struct TexNative;

/// Dictionary lookup: the texture whose name equals the requested one
/// under ASCII lower-casing.  Of several textures with the same lookup
/// name, the one inserted last wins.
pub open spec fn spec_lookup(texs: Seq<TextureV>, name: Seq<u8>) -> Option<TextureV>
    decreases texs.len(),
{
    if texs.len() == 0 {
        None
    } else if ascii_lower(texs.last().name) == ascii_lower(name) {
        Some(texs.last())
    } else {
        spec_lookup(texs.drop_last(), name)
    }
}

impl Texture {
    /// Type id of a texture reference section.
    pub fn section_id() -> (r: u32)
        ensures
            r == ID_TEXTURE,
    {
        ID_TEXTURE
    }

    /// Tie a dictionary-decoded texture to its dictionary's name.
    pub fn from_simple(dict_name: Rc<Vec<u8>>, tex: SimpleTexture) -> (r: Rc<Texture>)
        ensures
            r@ == (TextureV {
                dict: dict_name@,
                name: tex@.name,
                mask: tex@.mask,
                raster: tex@.raster,
                filter: tex@.filter,
                wrap_x: tex@.wrap_x,
                wrap_y: tex@.wrap_y,
            }),
    {
        Rc::new(
            Texture {
                dict: dict_name,
                name: tex.name,
                mask: tex.mask,
                raster: tex.raster,
                filter: tex.filter,
                wrap_x: tex.wrap_x,
                wrap_y: tex.wrap_y,
            },
        )
    }

    /// What decoding a texture reference yields: a filter word (read and
    /// discarded, the dictionary's modes stand), the texture name, the mask
    /// name, a skipped extension region, and then resolution of the name
    /// against the bound dictionary.  With no dictionary bound, or a name
    /// the dictionary lacks, the decode fails with `TextureNotFound`
    /// carrying the requested name.
    pub open spec fn spec_parse(data: Seq<u8>, pos: int, dict: Option<TexDictionaryV>) -> Result<
        (TextureV, int),
        ErrorV,
    > {
        match spec_read_header_expecting(data, pos, ID_TEXTURE) {
            Ok((_, p0)) => match spec_read_header_expecting(data, p0, ID_STRUCT) {
                Ok((_, p1)) => if p1 + 4 <= data.len() {
                    match spec_rw_string(data, p1 + 4) {
                        Ok((name, p2)) => match spec_rw_string(data, p2) {
                            Ok((mask, p3)) => match spec_skip_section_expecting(
                                data,
                                p3,
                                ID_EXTENSION,
                            ) {
                                Ok((_, p4)) => match dict {
                                    Some(d) => match spec_lookup(d.textures, name) {
                                        Some(t) => Ok((t, p4)),
                                        None => Err(ErrorV::TextureNotFound(name)),
                                    },
                                    None => Err(ErrorV::TextureNotFound(name)),
                                },
                                Err(e) => Err(e),
                            },
                            Err(e) => Err(e),
                        },
                        Err(e) => Err(e),
                    }
                } else {
                    Err(ErrorV::UnexpectedEndOfData)
                },
                Err(e) => Err(e),
            },
            Err(e) => Err(e),
        }
    }

    /// Read a texture reference and resolve it against the session's bound
    /// dictionary; the texture comes back by shared reference into the
    /// dictionary, never as a copy of the raster bytes.
    pub fn read(rws: &mut Stream, inst: &Instance) -> (r: Result<Rc<Texture>, Error>)
        requires
            old(rws).wf(),
        ensures
            final(rws).wf(),
            final(rws)@.data == old(rws)@.data,
            match r {
                Ok(t) => Texture::spec_parse(final(rws)@.data, old(rws)@.pos, inst@) == Ok::<
                    _,
                    ErrorV,
                >((t@, final(rws)@.pos as int)),
                Err(e) => Texture::spec_parse(final(rws)@.data, old(rws)@.pos, inst@) == Err::<
                    (TextureV, int),
                    _,
                >(e@),
            },
    {
        match rws.read_header_expecting(ID_TEXTURE) {
            Ok(_) => (),
            Err(e) => {
                return Err(e);
            },
        }
        match Struct::read_header(rws) {
            Ok(_) => (),
            Err(e) => {
                return Err(e);
            },
        }
        let _filter_flags = match rws.read_u16() {
            Ok(w) => w,
            Err(e) => {
                return Err(e);
            },
        };
        let _pad = match rws.read_u16() {
            Ok(w) => w,
            Err(e) => {
                return Err(e);
            },
        };
        let name = match crate::section::read_rw_string(rws) {
            Ok(v) => v,
            Err(e) => {
                return Err(e);
            },
        };
        let mask = match crate::section::read_rw_string(rws) {
            Ok(v) => v,
            Err(e) => {
                return Err(e);
            },
        };
        match Extension::skip_section(rws) {
            Ok(_) => (),
            Err(e) => {
                return Err(e);
            },
        }
        match inst.read_texture(name.as_slice(), Some(mask.as_slice())) {
            Some(t) => Ok(t),
            None => Err(Error::TextureNotFound(name)),
        }
    }
}

impl TexDictionary {
    /// Type id of a texture dictionary section.
    pub fn section_id() -> (r: u32)
        ensures
            r == ID_TEX_DICTIONARY,
    {
        ID_TEX_DICTIONARY
    }

    /// An empty dictionary under the given name.
    pub fn new_empty(name: Vec<u8>) -> (r: Rc<TexDictionary>)
        ensures
            r@.name == name@,
            r@.textures == Seq::<TextureV>::empty(),
    {
        let d = TexDictionary { name: Rc::new(name), textures: Vec::new() };
        proof {
            assert(d@.textures =~= Seq::<TextureV>::empty());
        }
        Rc::new(d)
    }

    /// Build a dictionary from decoded textures; each is tied to the
    /// dictionary's name, in the given order.
    pub fn new(name: Vec<u8>, texgen: Vec<SimpleTexture>) -> (r: Rc<TexDictionary>)
        ensures
            r@.name == name@,
            r@.textures == Seq::new(
                texgen@.len(),
                |i: int|
                    TextureV {
                        dict: name@,
                        name: texgen@[i]@.name,
                        mask: texgen@[i]@.mask,
                        raster: texgen@[i]@.raster,
                        filter: texgen@[i]@.filter,
                        wrap_x: texgen@[i]@.wrap_x,
                        wrap_y: texgen@[i]@.wrap_y,
                    },
            ),
    {
        let ghost namev = name@;
        let ghost texgenv = texgen@;
        let dict_name: Rc<Vec<u8>> = Rc::new(name);
        let mut textures: Vec<Rc<Texture>> = Vec::new();
        let mut texgen = texgen;
        let mut i: usize = 0;
        let n = texgen.len();
        proof {
            assert(texgenv.subrange(0, texgenv.len() as int) =~= texgenv);
        }
        while texgen.len() > 0
            invariant
                dict_name@ == namev,
                i + texgen@.len() == n,
                n == texgenv.len(),
                texgen@ == texgenv.subrange(i as int, texgenv.len() as int),
                textures@.len() == i,
                forall|k: int|
                    0 <= k < i ==> (#[trigger] textures@[k])@ == (TextureV {
                        dict: namev,
                        name: texgenv[k]@.name,
                        mask: texgenv[k]@.mask,
                        raster: texgenv[k]@.raster,
                        filter: texgenv[k]@.filter,
                        wrap_x: texgenv[k]@.wrap_x,
                        wrap_y: texgenv[k]@.wrap_y,
                    }),
            decreases texgen@.len(),
        {
            let simple = texgen.remove(0);
            proof {
                assert(simple@ == texgenv[i as int]@);
            }
            let tex = Texture::from_simple(rc_clone(&dict_name), simple);
            textures.push(tex);
            proof {
                assert(texgen@ =~= texgenv.subrange(i + 1, texgenv.len() as int));
            }
            i = i + 1;
        }
        let d = TexDictionary { name: dict_name, textures };
        proof {
            assert(d@.textures =~= Seq::new(
                texgenv.len(),
                |k: int|
                    TextureV {
                        dict: namev,
                        name: texgenv[k]@.name,
                        mask: texgenv[k]@.mask,
                        raster: texgenv[k]@.raster,
                        filter: texgenv[k]@.filter,
                        wrap_x: texgenv[k]@.wrap_x,
                        wrap_y: texgenv[k]@.wrap_y,
                    },
            ));
        }
        Rc::new(d)
    }

    /// Look a texture up by name, case-insensitively; of textures sharing a
    /// lookup name the last one wins, as the newest insertion overwrites.
    /// The result shares the stored texture, it copies nothing.
    pub fn read_texture(&self, name: &[u8], mask: Option<&[u8]>) -> (r: Option<Rc<Texture>>)
        ensures
            match r {
                Some(t) => spec_lookup(self@.textures, name@) == Some(t@),
                None => spec_lookup(self@.textures, name@) is None,
            },
    {
        let qlow = to_lowercase_bytes(name);
        let mut i = self.textures.len();
        proof {
            assert(self@.textures.subrange(0, i as int) =~= self@.textures);
        }
        while i > 0
            invariant
                i <= self@.textures.len(),
                qlow@ == ascii_lower(name@),
                spec_lookup(self@.textures, name@) == spec_lookup(
                    self@.textures.subrange(0, i as int),
                    name@,
                ),
            decreases i,
        {
            i = i - 1;
            let tlow = to_lowercase_bytes(self.textures[i].name.as_slice());
            let ghost prefix = self@.textures.subrange(0, i + 1);
            proof {
                assert(prefix.last() == self@.textures[i as int]);
                assert(prefix.drop_last() =~= self@.textures.subrange(0, i as int));
            }
            if bytes_eq(tlow.as_slice(), qlow.as_slice()) {
                return Some(rc_clone(&self.textures[i]));
            }
        }
        proof {
            assert(self@.textures.subrange(0, 0) =~= Seq::<TextureV>::empty());
        }
        None
    }
}


/// The block-compressed layouts the dictionary decoder implements, chosen
/// by the pixel layout together with the compressed and alpha flags.
#[derive(Debug, Copy, Clone, PartialEq, Eq, Structural)]
pub enum LevelKind {
    Dxt1c,
    Dxt1a,
    Dxt3,
}

/// Which implemented layout a format selects, if any.
pub open spec fn spec_level_kind(format: RasterFormat, compressed: bool, alpha: bool) -> Option<LevelKind> {
    if format == RasterFormat::R5G6B5 && compressed && !alpha {
        Some(LevelKind::Dxt1c)
    } else if format == RasterFormat::R5G5B5A1 && compressed && alpha {
        Some(LevelKind::Dxt1a)
    } else if format == RasterFormat::R4G4B4A4 && compressed && alpha {
        Some(LevelKind::Dxt3)
    } else {
        None
    }
}

/// Tag a level's payload with its layout.
pub open spec fn kind_data(kind: LevelKind, bytes: Seq<u8>) -> TextureDataV {
    match kind {
        LevelKind::Dxt1c => TextureDataV::Dxt1c(bytes),
        LevelKind::Dxt1a => TextureDataV::Dxt1a(bytes),
        LevelKind::Dxt3 => TextureDataV::Dxt3(bytes),
    }
}

/// Halving of a mip dimension, floored at one.
pub open spec fn half_dim(w: u16) -> u16 {
    if w / 2 == 0 {
        1u16
    } else {
        (w / 2) as u16
    }
}

/// Parse `levels` declared mip levels: each is a byte size then that many
/// raw bytes.  A declared size of zero stops the appending of levels from
/// there on (the level is discarded, not an error), but every remaining
/// declared level is still read, and the notional dimensions keep halving.
pub open spec fn spec_parse_mips(
    data: Seq<u8>,
    pos: int,
    levels: nat,
    w: u16,
    h: u16,
    kind: LevelKind,
    stopped: bool,
    acc: Seq<TexLevelV>,
) -> Result<(Seq<TexLevelV>, int), ErrorV>
    decreases levels,
{
    if levels == 0 {
        Ok((acc, pos))
    } else if pos + 4 <= data.len() {
        let size = le32(data, pos);
        if pos + 4 + size <= data.len() {
            let bytes = data.subrange(pos + 4, pos + 4 + size);
            let stopped2 = stopped || size == 0;
            let acc2 = if stopped2 {
                acc
            } else {
                acc.push(TexLevelV { data: kind_data(kind, bytes), width: w, height: h })
            };
            spec_parse_mips(
                data,
                pos + 4 + size,
                (levels - 1) as nat,
                half_dim(w),
                half_dim(h),
                kind,
                stopped2,
                acc2,
            )
        } else {
            Err(ErrorV::UnexpectedEndOfData)
        }
    } else {
        Err(ErrorV::UnexpectedEndOfData)
    }
}

/// Law: once the zero-size quirk has stopped the chain, no later level is
/// appended, however many declared levels are still read.
pub proof fn lemma_mips_stopped(
    data: Seq<u8>,
    pos: int,
    levels: nat,
    w: u16,
    h: u16,
    kind: LevelKind,
    acc: Seq<TexLevelV>,
)
    ensures
        spec_parse_mips(data, pos, levels, w, h, kind, true, acc) matches Ok((mips, _)) ==> mips
            == acc,
    decreases levels,
{
    if levels > 0 && pos + 4 <= data.len() {
        let size = le32(data, pos);
        if pos + 4 + size <= data.len() {
            lemma_mips_stopped(data, pos + 4 + size, (levels - 1) as nat, half_dim(w), half_dim(h), kind, acc);
        }
    }
}

/// Law: levels already appended are never dropped or reordered by what
/// follows; the parsed chain always extends them.
pub proof fn lemma_mips_prefix(
    data: Seq<u8>,
    pos: int,
    levels: nat,
    w: u16,
    h: u16,
    kind: LevelKind,
    stopped: bool,
    acc: Seq<TexLevelV>,
)
    ensures
        spec_parse_mips(data, pos, levels, w, h, kind, stopped, acc) matches Ok((mips, _)) ==> (
        acc.len() <= mips.len() && mips.subrange(0, acc.len() as int) == acc),
    decreases levels,
{
    if levels == 0 {
        if spec_parse_mips(data, pos, levels, w, h, kind, stopped, acc) is Ok {
            assert(acc.subrange(0, acc.len() as int) =~= acc);
        }
    } else if pos + 4 <= data.len() {
        let size = le32(data, pos);
        if pos + 4 + size <= data.len() {
            let bytes = data.subrange(pos + 4, pos + 4 + size);
            let stopped2 = stopped || size == 0;
            let acc2 = if stopped2 {
                acc
            } else {
                acc.push(TexLevelV { data: kind_data(kind, bytes), width: w, height: h })
            };
            lemma_mips_prefix(data, pos + 4 + size, (levels - 1) as nat, half_dim(w), half_dim(h), kind, stopped2, acc2);
            assert(spec_parse_mips(data, pos, levels, w, h, kind, stopped, acc) == spec_parse_mips(
                data,
                pos + 4 + size,
                (levels - 1) as nat,
                half_dim(w),
                half_dim(h),
                kind,
                stopped2,
                acc2,
            ));
            if spec_parse_mips(data, pos, levels, w, h, kind, stopped, acc) is Ok {
                let mips = spec_parse_mips(data, pos, levels, w, h, kind, stopped, acc)->Ok_0.0;
                assert(acc2.len() <= mips.len());
                assert(mips.subrange(0, acc2.len() as int) == acc2);
                assert forall|k: int| 0 <= k < acc.len() implies mips[k] == acc[k] by {
                    assert(mips.subrange(0, acc2.len() as int)[k] == mips[k]);
                }
                assert(mips.subrange(0, acc.len() as int) =~= acc);
            }
        }
    }
}

/// What decoding the PC-platform body of a native texture yields: the
/// platform word again, a filter word, two fixed 32-byte NUL-terminated
/// name fields, the raster-format and pixel-format words, the dimension and
/// level-count fields, a flags byte, then the declared mip levels.  Only
/// the block-compressed, non-paletted path is implemented; every other
/// variant fails with `UnsupportedFormat` carrying the raster-format word.
/// A texture whose chain stores no level at all is likewise refused.
pub open spec fn spec_parse_d3dx(data: Seq<u8>, pos: int) -> Result<(SimpleTextureV, int), ErrorV> {
    if pos + 88 <= data.len() {
        let filter_flags = le32(data, pos + 4);
        let name_raw = data.subrange(pos + 8, pos + 40);
        let mask_raw = data.subrange(pos + 40, pos + 72);
        let raster_format = le32(data, pos + 72);
        let width = le16(data, pos + 80);
        let height = le16(data, pos + 82);
        let num_levels = data[pos + 85];
        let type_flags = data[pos + 87];
        match spec_null_terminated(name_raw) {
            Ok(name) => match spec_null_terminated(mask_raw) {
                Ok(mask) => if raster_format & 0x2000 != 0 || raster_format & 0x4000 != 0 {
                    Err(ErrorV::UnsupportedFormat(raster_format))
                } else {
                    match spec_raster_format_from_raw(raster_format) {
                        Some(format) => {
                            let has_alpha = type_flags & 0x01 != 0;
                            let is_compressed = type_flags & 0x08 != 0;
                            match spec_level_kind(format, is_compressed, has_alpha) {
                                Some(kind) => match spec_parse_mips(
                                    data,
                                    pos + 88,
                                    num_levels as nat,
                                    width,
                                    height,
                                    kind,
                                    false,
                                    Seq::empty(),
                                ) {
                                    Ok((mips, p)) => if mips.len() > 0 {
                                        Ok(
                                            (
                                                SimpleTextureV {
                                                    name,
                                                    mask,
                                                    raster: RasterV { mips },
                                                    filter: match spec_filter_from_raw(
                                                        filter_flags & 0xFF,
                                                    ) {
                                                        Some(f) => f,
                                                        None => FilterMode::NoFilter,
                                                    },
                                                    wrap_x: match spec_wrap_from_raw(
                                                        (filter_flags >> 8) & 0xF,
                                                    ) {
                                                        Some(w) => w,
                                                        None => WrapMode::NoWrap,
                                                    },
                                                    wrap_y: match spec_wrap_from_raw(
                                                        (filter_flags >> 12) & 0xF,
                                                    ) {
                                                        Some(w) => w,
                                                        None => WrapMode::NoWrap,
                                                    },
                                                },
                                                p,
                                            ),
                                        )
                                    } else {
                                        Err(ErrorV::UnsupportedFormat(raster_format))
                                    },
                                    Err(e) => Err(e),
                                },
                                None => Err(ErrorV::UnsupportedFormat(raster_format)),
                            }
                        },
                        None => Err(ErrorV::UnsupportedFormat(raster_format)),
                    }
                },
                Err(e) => Err(e),
            },
            Err(e) => Err(e),
        }
    } else {
        Err(ErrorV::UnexpectedEndOfData)
    }
}

/// What decoding one native texture yields: a peeked platform tag, the
/// platform-specific body (only the two PC variants are implemented; any
/// other tag fails with `UnsupportedPlatform`), then a skipped extension
/// region.
pub open spec fn spec_parse_texnative(data: Seq<u8>, pos: int) -> Result<(SimpleTextureV, int), ErrorV> {
    match spec_read_header_expecting(data, pos, ID_TEX_NATIVE) {
        Ok((_, p0)) => match spec_peek_struct_u32(data, p0) {
            Ok(tag) => if tag == 8 || tag == 9 {
                match spec_read_header_expecting(data, p0, ID_STRUCT) {
                    Ok((_, p1)) => match spec_parse_d3dx(data, p1) {
                        Ok((st, p2)) => match spec_skip_section_expecting(data, p2, ID_EXTENSION) {
                            Ok((_, p3)) => Ok((st, p3)),
                            Err(e) => Err(e),
                        },
                        Err(e) => Err(e),
                    },
                    Err(e) => Err(e),
                }
            } else {
                Err(ErrorV::UnsupportedPlatform(tag))
            },
            Err(e) => Err(e),
        },
        Err(e) => Err(e),
    }
}

/// Parse `n` native textures in order.
pub open spec fn spec_parse_texnatives(data: Seq<u8>, pos: int, n: nat, acc: Seq<SimpleTextureV>) -> Result<
    (Seq<SimpleTextureV>, int),
    ErrorV,
>
    decreases n,
{
    if n == 0 {
        Ok((acc, pos))
    } else {
        match spec_parse_texnative(data, pos) {
            Ok((st, p)) => spec_parse_texnatives(data, p, (n - 1) as nat, acc.push(st)),
            Err(e) => Err(e),
        }
    }
}

/// What decoding a whole texture dictionary yields: a texture count whose
/// encoding depends on the section's declared version (a full 32-bit count
/// below the threshold, a 16-bit count plus a 16-bit device id at or above
/// it), then that many native textures, then a skipped extension region.
pub open spec fn spec_parse_texdict(data: Seq<u8>, pos: int, name: Seq<u8>) -> Result<
    (TexDictionaryV, int),
    ErrorV,
> {
    match spec_read_header_expecting(data, pos, ID_TEX_DICTIONARY) {
        Ok((h, p0)) => match spec_read_header_expecting(data, p0, ID_STRUCT) {
            Ok((_, p1)) => if p1 + 4 <= data.len() {
                let n: u32 = if h.version < 0x1803FFFF {
                    le32(data, p1)
                } else {
                    le16(data, p1) as u32
                };
                match spec_parse_texnatives(data, p1 + 4, n as nat, Seq::empty()) {
                    Ok((sts, p2)) => match spec_skip_section_expecting(data, p2, ID_EXTENSION) {
                        Ok((_, p3)) => Ok(
                            (
                                TexDictionaryV {
                                    name,
                                    textures: Seq::new(
                                        sts.len(),
                                        |i: int|
                                            TextureV {
                                                dict: name,
                                                name: sts[i].name,
                                                mask: sts[i].mask,
                                                raster: sts[i].raster,
                                                filter: sts[i].filter,
                                                wrap_x: sts[i].wrap_x,
                                                wrap_y: sts[i].wrap_y,
                                            },
                                    ),
                                },
                                p3,
                            ),
                        ),
                        Err(e) => Err(e),
                    },
                    Err(e) => Err(e),
                }
            } else {
                Err(ErrorV::UnexpectedEndOfData)
            },
            Err(e) => Err(e),
        },
        Err(e) => Err(e),
    }
}

impl TexDictionary {
    /// Read a whole texture dictionary under the given name: the
    /// version-gated texture count, that many native textures, a skipped
    /// extension region, and the dictionary built from them in order.
    #[verifier::loop_isolation(false)]
    pub fn read(rws: &mut Stream, dict_name: Vec<u8>) -> (r: Result<Rc<TexDictionary>, Error>)
        requires
            old(rws).wf(),
        ensures
            final(rws).wf(),
            final(rws)@.data == old(rws)@.data,
            match r {
                Ok(d) => spec_parse_texdict(final(rws)@.data, old(rws)@.pos, dict_name@) == Ok::<
                    _,
                    ErrorV,
                >((d@, final(rws)@.pos as int)),
                Err(e) => spec_parse_texdict(final(rws)@.data, old(rws)@.pos, dict_name@) == Err::<
                    (TexDictionaryV, int),
                    _,
                >(e@),
            },
    {
        let ghost data = old(rws)@.data;
        let header = match rws.read_header_expecting(ID_TEX_DICTIONARY) {
            Ok(h) => h,
            Err(e) => {
                return Err(e);
            },
        };
        match Struct::read_header(rws) {
            Ok(_) => (),
            Err(e) => {
                return Err(e);
            },
        }
        let num_textures: u32 = if header.version < 0x1803FFFF {
            match rws.read_u32() {
                Ok(w) => w,
                Err(e) => {
                    return Err(e);
                },
            }
        } else {
            let count = match rws.read_u16() {
                Ok(w) => w,
                Err(e) => {
                    return Err(e);
                },
            };
            let _dev_id = match rws.read_u16() {
                Ok(w) => w,
                Err(e) => {
                    return Err(e);
                },
            };
            count as u32
        };
        let ghost tex_start = rws@.pos;
        let mut textures: Vec<SimpleTexture> = Vec::new();
        proof {
            assert(Seq::new(textures@.len(), |k: int| textures@[k]@) =~= Seq::<
                SimpleTextureV,
            >::empty());
        }
        let mut i: usize = 0;
        while i < num_textures as usize
            invariant
                rws.wf(),
                rws@.data == data,
                i <= num_textures,
                textures@.len() == i,
                spec_parse_texnatives(data, tex_start, num_textures as nat, Seq::empty())
                    == spec_parse_texnatives(
                    data,
                    rws@.pos as int,
                    (num_textures - i) as nat,
                    Seq::new(textures@.len(), |k: int| textures@[k]@),
                ),
            decreases num_textures - i,
        {
            let st = match TexNative::read(rws) {
                Ok(st) => st,
                Err(e) => {
                    return Err(e);
                },
            };
            let ghost pre = Seq::new(textures@.len(), |k: int| textures@[k]@);
            let ghost stv = st@;
            textures.push(st);
            proof {
                assert(Seq::new(textures@.len(), |k: int| textures@[k]@) =~= pre.push(stv));
            }
            i = i + 1;
        }
        match Extension::skip_section(rws) {
            Ok(_) => (),
            Err(e) => {
                return Err(e);
            },
        }
        let ghost texturesv = Seq::new(textures@.len(), |k: int| textures@[k]@);
        let d = TexDictionary::new(dict_name, textures);
        proof {
            assert(d@.textures =~= Seq::new(
                texturesv.len(),
                |k: int|
                    TextureV {
                        dict: dict_name@,
                        name: texturesv[k].name,
                        mask: texturesv[k].mask,
                        raster: texturesv[k].raster,
                        filter: texturesv[k].filter,
                        wrap_x: texturesv[k].wrap_x,
                        wrap_y: texturesv[k].wrap_y,
                    },
            ));
        }
        Ok(d)
    }
}

impl TexNative {
    /// Type id of a native texture section.
    pub fn section_id() -> (r: u32)
        ensures
            r == ID_TEX_NATIVE,
    {
        ID_TEX_NATIVE
    }

    /// Read one native texture: peek the platform tag, decode the PC body
    /// for the two PC tags, fail with `UnsupportedPlatform` for any other,
    /// then skip the trailing extension region.
    pub fn read(rws: &mut Stream) -> (r: Result<SimpleTexture, Error>)
        requires
            old(rws).wf(),
        ensures
            final(rws).wf(),
            final(rws)@.data == old(rws)@.data,
            match r {
                Ok(st) => spec_parse_texnative(final(rws)@.data, old(rws)@.pos) == Ok::<_, ErrorV>(
                    (st@, final(rws)@.pos as int),
                ),
                Err(e) => spec_parse_texnative(final(rws)@.data, old(rws)@.pos) == Err::<
                    (SimpleTextureV, int),
                    _,
                >(e@),
            },
    {
        match rws.read_header_expecting(ID_TEX_NATIVE) {
            Ok(_) => (),
            Err(e) => {
                return Err(e);
            },
        }
        let tag = match Struct::peek_u32(rws) {
            Ok(w) => w,
            Err(e) => {
                return Err(e);
            },
        };
        if tag != 8 && tag != 9 {
            return Err(Error::UnsupportedPlatform(tag));
        }
        match Struct::read_header(rws) {
            Ok(_) => (),
            Err(e) => {
                return Err(e);
            },
        }
        let st = match TexNative::read_struct_d3dx(rws) {
            Ok(st) => st,
            Err(e) => {
                return Err(e);
            },
        };
        match Extension::skip_section(rws) {
            Ok(_) => (),
            Err(e) => {
                return Err(e);
            },
        }
        Ok(st)
    }

    /// Read the PC-platform texture body: names, format words, dimensions,
    /// then the declared mip levels with the zero-size stop quirk.
    #[verifier::loop_isolation(false)]
    pub fn read_struct_d3dx(rws: &mut Stream) -> (r: Result<SimpleTexture, Error>)
        requires
            old(rws).wf(),
        ensures
            final(rws).wf(),
            final(rws)@.data == old(rws)@.data,
            match r {
                Ok(st) => spec_parse_d3dx(final(rws)@.data, old(rws)@.pos) == Ok::<_, ErrorV>(
                    (st@, final(rws)@.pos as int),
                ),
                Err(e) => spec_parse_d3dx(final(rws)@.data, old(rws)@.pos) == Err::<
                    (SimpleTextureV, int),
                    _,
                >(e@),
            },
    {
        let ghost data = old(rws)@.data;
        let ghost start = old(rws)@.pos;
        if rws.remaining() < 88 {
            return Err(Error::UnexpectedEndOfData);
        }
        let _platform_id = match rws.read_u32() {
            Ok(w) => w,
            Err(e) => {
                return Err(e);
            },
        };
        let filter_flags = match rws.read_u32() {
            Ok(w) => w,
            Err(e) => {
                return Err(e);
            },
        };
        let name_raw = match rws.read_bytes(32) {
            Ok(v) => v,
            Err(e) => {
                return Err(e);
            },
        };
        let mask_raw = match rws.read_bytes(32) {
            Ok(v) => v,
            Err(e) => {
                return Err(e);
            },
        };
        let name = match from_null_terminated_buffer(name_raw) {
            Ok(v) => v,
            Err(e) => {
                return Err(e);
            },
        };
        let mask = match from_null_terminated_buffer(mask_raw) {
            Ok(v) => v,
            Err(e) => {
                return Err(e);
            },
        };
        let raster_format = match rws.read_u32() {
            Ok(w) => w,
            Err(e) => {
                return Err(e);
            },
        };
        let _d3d_format = match rws.read_u32() {
            Ok(w) => w,
            Err(e) => {
                return Err(e);
            },
        };
        let mut width = match rws.read_u16() {
            Ok(w) => w,
            Err(e) => {
                return Err(e);
            },
        };
        let mut height = match rws.read_u16() {
            Ok(w) => w,
            Err(e) => {
                return Err(e);
            },
        };
        let _depth = match rws.read_u8() {
            Ok(b) => b,
            Err(e) => {
                return Err(e);
            },
        };
        let num_levels = match rws.read_u8() {
            Ok(b) => b,
            Err(e) => {
                return Err(e);
            },
        };
        let _raster_type = match rws.read_u8() {
            Ok(b) => b,
            Err(e) => {
                return Err(e);
            },
        };
        let type_flags = match rws.read_u8() {
            Ok(b) => b,
            Err(e) => {
                return Err(e);
            },
        };
        if raster_format & 0x2000 != 0 || raster_format & 0x4000 != 0 {
            return Err(Error::UnsupportedFormat(raster_format));
        }
        let format = match RasterFormat::from_raw(raster_format) {
            Some(f) => f,
            None => {
                return Err(Error::UnsupportedFormat(raster_format));
            },
        };
        let has_alpha = type_flags & 0x01 != 0;
        let is_compressed = type_flags & 0x08 != 0;
        let kind: LevelKind = if format == RasterFormat::R5G6B5 && is_compressed && !has_alpha {
            LevelKind::Dxt1c
        } else if format == RasterFormat::R5G5B5A1 && is_compressed && has_alpha {
            LevelKind::Dxt1a
        } else if format == RasterFormat::R4G4B4A4 && is_compressed && has_alpha {
            LevelKind::Dxt3
        } else {
            return Err(Error::UnsupportedFormat(raster_format));
        };
        let filter = match FilterMode::from_raw(filter_flags & 0xFF) {
            Some(f) => f,
            None => FilterMode::NoFilter,
        };
        let wrap_x = match WrapMode::from_raw((filter_flags >> 8) & 0xF) {
            Some(w) => w,
            None => WrapMode::NoWrap,
        };
        let wrap_y = match WrapMode::from_raw((filter_flags >> 12) & 0xF) {
            Some(w) => w,
            None => WrapMode::NoWrap,
        };
        let ghost mips_start = rws@.pos;
        let ghost w0 = width;
        let ghost h0 = height;
        let mut mips: Vec<TexLevel> = Vec::new();
        let mut stopped = false;
        let mut level: usize = 0;
        proof {
            assert(Seq::new(mips@.len(), |k: int| mips@[k]@) =~= Seq::<TexLevelV>::empty());
        }
        while level < num_levels as usize
            invariant
                rws.wf(),
                rws@.data == data,
                level <= num_levels,
                spec_parse_mips(
                    data,
                    mips_start,
                    num_levels as nat,
                    w0,
                    h0,
                    kind,
                    false,
                    Seq::empty(),
                ) == spec_parse_mips(
                    data,
                    rws@.pos as int,
                    (num_levels - level) as nat,
                    width,
                    height,
                    kind,
                    stopped,
                    Seq::new(mips@.len(), |k: int| mips@[k]@),
                ),
            decreases num_levels - level,
        {
            let raster_size = match rws.read_u32() {
                Ok(w) => w,
                Err(e) => {
                    return Err(e);
                },
            };
            let bytes = match rws.read_bytes(raster_size as usize) {
                Ok(v) => v,
                Err(e) => {
                    return Err(e);
                },
            };
            let ghost pre = Seq::new(mips@.len(), |k: int| mips@[k]@);
            let ghost bytesv = bytes@;
            if raster_size == 0 {
                stopped = true;
            }
            if !stopped {
                let tex_data = match kind {
                    LevelKind::Dxt1c => TextureData::Dxt1c(bytes),
                    LevelKind::Dxt1a => TextureData::Dxt1a(bytes),
                    LevelKind::Dxt3 => TextureData::Dxt3(bytes),
                };
                mips.push(TexLevel { data: tex_data, width, height });
                proof {
                    assert(Seq::new(mips@.len(), |k: int| mips@[k]@) =~= pre.push(
                        TexLevelV { data: kind_data(kind, bytesv), width: width, height: height },
                    ));
                }
            }
            width = if width / 2 == 0 {
                1
            } else {
                width / 2
            };
            height = if height / 2 == 0 {
                1
            } else {
                height / 2
            };
            level = level + 1;
        }
        if mips.len() == 0 {
            return Err(Error::UnsupportedFormat(raster_format));
        }
        let raster = Raster::new(mips);
        Ok(SimpleTexture { name, mask, raster, filter, wrap_x, wrap_y })
    }
}


} // verus!
