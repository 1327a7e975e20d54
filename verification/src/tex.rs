//! Texture kinds, sampler descriptions and their OpenGL targets and
//! parameter values.

use vstd::prelude::*;
use crate::format::{ChannelType, Format, SurfaceType};
use crate::glenum as gl;

verus! {

/// Size of a texture along one dimension, in texels.
pub type Size = u16;

/// Number of layers of an array texture.
pub type ArraySize = u8;

/// A mipmap level, or a number of levels.
pub type Level = u8;

/// Width, height, depth and sample configuration; 0 where a dimension does
/// not apply.
pub type Dimensions = (Size, Size, Size, AaMode);

/// How the samples of each texel are laid out.
#[derive(Clone, Copy, Debug, PartialEq, Eq, Structural)]
pub enum AaMode {
    /// One sample per texel.
    Single,
    /// Multisample anti-aliasing with the given number of samples.
    Multi(u8),
    /// Coverage sampling with the given numbers of samples and fragments.
    Coverage(u8, u8),
}

/// Number of data fragments stored per texel.
pub open spec fn spec_num_fragments(aa: AaMode) -> u8 {
    match aa {
        AaMode::Single => 1,
        AaMode::Multi(n) => n,
        AaMode::Coverage(_, nf) => nf,
    }
}

impl AaMode {
    /// Number of data fragments stored per texel.
    pub fn get_num_fragments(&self) -> (r: u8)
        ensures
            r == spec_num_fragments(*self),
    {
        match *self {
            AaMode::Single => 1,
            AaMode::Multi(n) => n,
            AaMode::Coverage(_, nf) => nf,
        }
    }

    /// Whether a surface of this layout has to be resolved before it is
    /// sampled: it stores more than one fragment per texel.
    pub fn needs_resolve(&self) -> (r: bool)
        ensures
            r == (spec_num_fragments(*self) > 1),
    {
        self.get_num_fragments() > 1
    }
}

/// A face of a cube texture.
#[derive(Clone, Copy, Debug, PartialEq, Eq, Structural)]
pub enum CubeFace {
    PosZ,
    NegZ,
    PosX,
    NegX,
    PosY,
    NegY,
}

/// The kind of storage a texture has.
#[derive(Clone, Copy, Debug, PartialEq, Eq, Structural)]
pub enum Kind {
    /// A single row of texels.
    D1(Size),
    /// An array of rows.
    D1Array(Size, ArraySize),
    /// A 2D texture.
    D2(Size, Size, AaMode),
    /// An array of 2D textures.
    D2Array(Size, Size, ArraySize, AaMode),
    /// A volume texture.
    D3(Size, Size, Size),
    /// Six 2D faces of a cube.
    Cube(Size, Size),
    /// An array of cubes.
    CubeArray(Size, Size, ArraySize),
}

/// The dimensions of a texture kind, with 0 where a dimension does not
/// apply; a cube has depth 6 and an array of `a` cubes depth `6 * a`.
pub open spec fn spec_dimensions(k: Kind) -> (Size, Size, Size, AaMode) {
    match k {
        Kind::D1(w) => (w, 0, 0, AaMode::Single),
        Kind::D1Array(w, a) => (w, 0, a as Size, AaMode::Single),
        Kind::D2(w, h, s) => (w, h, 0, s),
        Kind::D2Array(w, h, a, s) => (w, h, a as Size, s),
        Kind::D3(w, h, d) => (w, h, d, AaMode::Single),
        Kind::Cube(w, h) => (w, h, 6, AaMode::Single),
        Kind::CubeArray(w, h, a) => (w, h, (6 * a) as Size, AaMode::Single),
    }
}

/// The sample configuration of a texture kind.
pub open spec fn spec_aa_mode(k: Kind) -> AaMode {
    spec_dimensions(k).3
}

impl Kind {
    /// The dimensions of the texture: width, height, depth and sample
    /// configuration, with 0 where a dimension does not apply.
    pub fn get_dimensions(&self) -> (r: Dimensions)
        ensures
            r == spec_dimensions(*self),
    {
        match *self {
            Kind::D1(w) => (w, 0, 0, AaMode::Single),
            Kind::D1Array(w, a) => (w, 0, a as Size, AaMode::Single),
            Kind::D2(w, h, s) => (w, h, 0, s),
            Kind::D2Array(w, h, a, s) => (w, h, a as Size, s),
            Kind::D3(w, h, d) => (w, h, d, AaMode::Single),
            Kind::Cube(w, h) => (w, h, 6, AaMode::Single),
            Kind::CubeArray(w, h, a) => (w, h, 6 * (a as Size), AaMode::Single),
        }
    }
}

/// How texture coordinates outside `[0, 1]` are handled.
#[derive(Clone, Copy, Debug, PartialEq, Eq, Structural)]
pub enum WrapMode {
    Tile,
    Mirror,
    Clamp,
}

/// How a texture is filtered when it is sampled.
#[derive(Clone, Copy, Debug, PartialEq, Eq, Structural)]
pub enum FilterMethod {
    Scale,
    Mipmap,
    Bilinear,
    Trilinear,
    /// Anisotropic filtering with the given maximum factor.
    Anisotropic(u8),
}

/// A depth comparison function.
#[derive(Clone, Copy, Debug, PartialEq, Eq, Structural)]
pub enum Comparison {
    Never,
    Less,
    LessEqual,
    Equal,
    GreaterEqual,
    Greater,
    NotEqual,
    Always,
}

/// A level-of-detail value in fixed point: the number of eighths.
#[derive(Clone, Copy, Debug, PartialEq, Eq, Structural)]
pub struct Lod(pub i16);

/// How a texture is sampled.
#[derive(Clone, Copy, Debug, PartialEq, Eq)]
pub struct SamplerInfo {
    pub filtering: FilterMethod,
    /// Wrapping along S, T and R.
    pub wrap_mode: (WrapMode, WrapMode, WrapMode),
    pub lod_bias: Lod,
    /// The range the level of detail is clamped to: minimum and maximum.
    pub lod_range: (Lod, Lod),
    /// The comparison of a shadow sampler, if any.
    pub comparison: Option<Comparison>,
}

/// Bind flag: the texture can be read by shaders.
pub const SHADER_RESOURCE: u8 = 0x1;

/// The storage description of a texture.
#[derive(Clone, Copy, Debug, PartialEq, Eq, Structural)]
pub struct Descriptor {
    pub kind: Kind,
    /// Number of mipmap levels.
    pub levels: Level,
    pub format: SurfaceType,
    /// Bind flags, such as `SHADER_RESOURCE`.
    pub bind: u8,
}

impl Descriptor {
    /// Whether the bind flags of this descriptor contain `SHADER_RESOURCE`.
    pub fn is_shader_resource(&self) -> (r: bool)
        ensures
            r == (self.bind & SHADER_RESOURCE == SHADER_RESOURCE),
    {
        self.bind & SHADER_RESOURCE == SHADER_RESOURCE
    }
}

/// A region of one mipmap level of a texture, and the format of the data
/// that is uploaded into it.
#[derive(Clone, Copy, Debug, PartialEq, Eq, Structural)]
pub struct ImageInfo {
    pub xoffset: Size,
    pub yoffset: Size,
    pub zoffset: Size,
    pub width: Size,
    pub height: Size,
    pub depth: Size,
    pub format: Format,
    /// The mipmap level the region lies in.
    pub mipmap: Level,
}

/// Why a texture or a surface could not be created or updated.
#[derive(Clone, Copy, Debug, PartialEq, Eq, Structural)]
pub enum Error {
    /// The format has no OpenGL counterpart.
    Format(SurfaceType, Option<ChannelType>),
    /// The operation is not supported for this kind of texture.
    Kind,
    /// The sample configuration is not supported.
    Samples(AaMode),
    /// A dimension has an unsupported size.
    Size(Size),
    /// The data has a different size than the target region.
    Data(usize),
}

/// The OpenGL target of a cube face.
pub open spec fn spec_cube_face_to_gl(face: CubeFace) -> u32 {
    match face {
        CubeFace::PosZ => gl::TEXTURE_CUBE_MAP_POSITIVE_Z,
        CubeFace::NegZ => gl::TEXTURE_CUBE_MAP_NEGATIVE_Z,
        CubeFace::PosX => gl::TEXTURE_CUBE_MAP_POSITIVE_X,
        CubeFace::NegX => gl::TEXTURE_CUBE_MAP_NEGATIVE_X,
        CubeFace::PosY => gl::TEXTURE_CUBE_MAP_POSITIVE_Y,
        CubeFace::NegY => gl::TEXTURE_CUBE_MAP_NEGATIVE_Y,
    }
}

/// The OpenGL texture target of a texture kind: single-sampled 2D kinds
/// and their arrays map to the plain targets, all other sample
/// configurations to the multisample targets.
pub open spec fn spec_kind_to_gl(kind: Kind) -> u32 {
    match kind {
        Kind::D1(_) => gl::TEXTURE_1D,
        Kind::D1Array(_, _) => gl::TEXTURE_1D_ARRAY,
        Kind::D2(_, _, aa) => if aa == AaMode::Single {
            gl::TEXTURE_2D
        } else {
            gl::TEXTURE_2D_MULTISAMPLE
        },
        Kind::D2Array(_, _, _, aa) => if aa == AaMode::Single {
            gl::TEXTURE_2D_ARRAY
        } else {
            gl::TEXTURE_2D_MULTISAMPLE_ARRAY
        },
        Kind::D3(_, _, _) => gl::TEXTURE_3D,
        Kind::Cube(_, _) => gl::TEXTURE_CUBE_MAP,
        Kind::CubeArray(_, _, _) => gl::TEXTURE_CUBE_MAP_ARRAY,
    }
}

/// The target that an operation on a texture addresses: the face, when one
/// is given, else the texture's own target.
pub open spec fn spec_kind_face_to_gl(kind: Kind, face: Option<CubeFace>) -> u32 {
    match face {
        Some(f) => spec_cube_face_to_gl(f),
        None => spec_kind_to_gl(kind),
    }
}

/// The OpenGL wrap mode of a wrap mode.
pub open spec fn spec_wrap_to_gl(w: WrapMode) -> u32 {
    match w {
        WrapMode::Tile => gl::REPEAT,
        WrapMode::Mirror => gl::MIRRORED_REPEAT,
        WrapMode::Clamp => gl::CLAMP_TO_EDGE,
    }
}

/// Whether a filter method samples across mipmap levels.
pub open spec fn uses_mipmaps(f: FilterMethod) -> bool {
    !(f == FilterMethod::Scale || f == FilterMethod::Bilinear)
}

/// Whether a filter method interpolates linearly within a level.
pub open spec fn is_linear(f: FilterMethod) -> bool {
    !(f == FilterMethod::Scale || f == FilterMethod::Mipmap)
}

/// The OpenGL minification and magnification filters of a filter method.
pub open spec fn spec_filter_to_gl(f: FilterMethod) -> (u32, u32) {
    if is_linear(f) {
        (if uses_mipmaps(f) { gl::LINEAR_MIPMAP_LINEAR } else { gl::LINEAR }, gl::LINEAR)
    } else {
        (if uses_mipmaps(f) { gl::NEAREST_MIPMAP_NEAREST } else { gl::NEAREST }, gl::NEAREST)
    }
}

/// The OpenGL comparison function of a comparison.
pub open spec fn spec_map_comparison(c: Comparison) -> u32 {
    match c {
        Comparison::Never => gl::NEVER,
        Comparison::Less => gl::LESS,
        Comparison::LessEqual => gl::LEQUAL,
        Comparison::Equal => gl::EQUAL,
        Comparison::GreaterEqual => gl::GEQUAL,
        Comparison::Greater => gl::GREATER,
        Comparison::NotEqual => gl::NOTEQUAL,
        Comparison::Always => gl::ALWAYS,
    }
}

/// The OpenGL target of a cube face.
pub fn cube_face_to_gl(face: CubeFace) -> (r: u32)
    ensures
        r == spec_cube_face_to_gl(face),
{
    match face {
        CubeFace::PosZ => gl::TEXTURE_CUBE_MAP_POSITIVE_Z,
        CubeFace::NegZ => gl::TEXTURE_CUBE_MAP_NEGATIVE_Z,
        CubeFace::PosX => gl::TEXTURE_CUBE_MAP_POSITIVE_X,
        CubeFace::NegX => gl::TEXTURE_CUBE_MAP_NEGATIVE_X,
        CubeFace::PosY => gl::TEXTURE_CUBE_MAP_POSITIVE_Y,
        CubeFace::NegY => gl::TEXTURE_CUBE_MAP_NEGATIVE_Y,
    }
}

/// The OpenGL texture target of a texture kind.
pub fn kind_to_gl(kind: Kind) -> (r: u32)
    ensures
        r == spec_kind_to_gl(kind),
{
    match kind {
        Kind::D1(_) => gl::TEXTURE_1D,
        Kind::D1Array(_, _) => gl::TEXTURE_1D_ARRAY,
        Kind::D2(_, _, AaMode::Single) => gl::TEXTURE_2D,
        Kind::D2(_, _, _) => gl::TEXTURE_2D_MULTISAMPLE,
        Kind::D2Array(_, _, _, AaMode::Single) => gl::TEXTURE_2D_ARRAY,
        Kind::D2Array(_, _, _, _) => gl::TEXTURE_2D_MULTISAMPLE_ARRAY,
        Kind::D3(_, _, _) => gl::TEXTURE_3D,
        Kind::Cube(_, _) => gl::TEXTURE_CUBE_MAP,
        Kind::CubeArray(_, _, _) => gl::TEXTURE_CUBE_MAP_ARRAY,
    }
}

/// The target an operation on a texture addresses: the given cube face, or
/// else the target of the texture's kind.
pub fn kind_face_to_gl(kind: Kind, face: Option<CubeFace>) -> (r: u32)
    ensures
        r == spec_kind_face_to_gl(kind, face),
{
    match face {
        Some(f) => cube_face_to_gl(f),
        None => kind_to_gl(kind),
    }
}

/// The OpenGL wrap mode of a wrap mode.
pub fn wrap_to_gl(w: WrapMode) -> (r: u32)
    ensures
        r == spec_wrap_to_gl(w),
{
    match w {
        WrapMode::Tile => gl::REPEAT,
        WrapMode::Mirror => gl::MIRRORED_REPEAT,
        WrapMode::Clamp => gl::CLAMP_TO_EDGE,
    }
}

/// The OpenGL minification and magnification filters of a filter method.
pub fn filter_to_gl(f: FilterMethod) -> (r: (u32, u32))
    ensures
        r == spec_filter_to_gl(f),
{
    match f {
        FilterMethod::Scale => (gl::NEAREST, gl::NEAREST),
        FilterMethod::Mipmap => (gl::NEAREST_MIPMAP_NEAREST, gl::NEAREST),
        FilterMethod::Bilinear => (gl::LINEAR, gl::LINEAR),
        FilterMethod::Trilinear => (gl::LINEAR_MIPMAP_LINEAR, gl::LINEAR),
        FilterMethod::Anisotropic(..) => (gl::LINEAR_MIPMAP_LINEAR, gl::LINEAR),
    }
}

/// The OpenGL comparison function of a comparison.
pub fn map_comparison(c: Comparison) -> (r: u32)
    ensures
        r == spec_map_comparison(c),
{
    match c {
        Comparison::Never => gl::NEVER,
        Comparison::Less => gl::LESS,
        Comparison::LessEqual => gl::LEQUAL,
        Comparison::Equal => gl::EQUAL,
        Comparison::GreaterEqual => gl::GEQUAL,
        Comparison::Greater => gl::GREATER,
        Comparison::NotEqual => gl::NOTEQUAL,
        Comparison::Always => gl::ALWAYS,
    }
}

} // verus!
