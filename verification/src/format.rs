//! Surface formats and their OpenGL pixel formats, pixel
//! data types and sized internal formats.

use vstd::prelude::*;
use crate::glenum as gl;

verus! {

/// How the bits of a surface are laid out: the number of bits of each
/// channel, and whether the surface holds depth and stencil.
#[allow(non_camel_case_types)]
#[derive(Clone, Copy, Debug, PartialEq, Eq, Structural)]
pub enum SurfaceType {
    R3_G3_B2,
    R4_G4,
    R4_G4_B4_A4,
    R5_G5_B5_A1,
    R5_G6_B5,
    R8,
    R8_G8,
    R8_G8_B8,
    R8_G8_B8_A8,
    R10_G10_B10_A2,
    R11_G11_B10,
    R16,
    R16_G16,
    R16_G16_B16,
    R16_G16_B16_A16,
    R32,
    R32_G32,
    R32_G32_B32,
    R32_G32_B32_A32,
    D16,
    D24,
    D24_S8,
    D32,
}

/// How the storage of a surface channel is interpreted.
#[derive(Clone, Copy, Debug, PartialEq, Eq, Structural)]
pub enum ChannelType {
    Int,
    Uint,
    Iscaled,
    Uscaled,
    Inorm,
    Unorm,
    Float,
    Srgb,
}

/// A complete format: the surface layout and the channel interpretation.
#[derive(Clone, Copy, Debug, PartialEq, Eq, Structural)]
pub struct Format(pub SurfaceType, pub ChannelType);

/// Number of colour channels of a surface type; 0 for depth (and
/// depth-stencil) surfaces.
pub open spec fn color_channels(s: SurfaceType) -> nat {
    match s {
        SurfaceType::R8 | SurfaceType::R16 | SurfaceType::R32 => 1,
        SurfaceType::R4_G4 | SurfaceType::R8_G8 | SurfaceType::R16_G16
        | SurfaceType::R32_G32 => 2,
        SurfaceType::R3_G3_B2 | SurfaceType::R5_G6_B5 | SurfaceType::R8_G8_B8
        | SurfaceType::R11_G11_B10 | SurfaceType::R16_G16_B16
        | SurfaceType::R32_G32_B32 => 3,
        SurfaceType::R4_G4_B4_A4 | SurfaceType::R5_G5_B5_A1 | SurfaceType::R8_G8_B8_A8
        | SurfaceType::R10_G10_B10_A2 | SurfaceType::R16_G16_B16_A16
        | SurfaceType::R32_G32_B32_A32 => 4,
        _ => 0,
    }
}

/// The bit width shared by every channel of a surface whose channels all
/// have the same width of 8, 16 or 32 bits; `None` for packed and depth
/// layouts.
pub open spec fn uniform_channel_bits(s: SurfaceType) -> Option<nat> {
    match s {
        SurfaceType::R8 | SurfaceType::R8_G8 | SurfaceType::R8_G8_B8
        | SurfaceType::R8_G8_B8_A8 => Some(8),
        SurfaceType::R16 | SurfaceType::R16_G16 | SurfaceType::R16_G16_B16
        | SurfaceType::R16_G16_B16_A16 => Some(16),
        SurfaceType::R32 | SurfaceType::R32_G32 | SurfaceType::R32_G32_B32
        | SurfaceType::R32_G32_B32_A32 => Some(32),
        _ => None,
    }
}

/// Whether a channel type stores signed integers.
pub open spec fn is_signed_channel(c: ChannelType) -> bool {
    c == ChannelType::Int || c == ChannelType::Inorm || c == ChannelType::Iscaled
}

/// Whether a channel type stores unsigned integers.
pub open spec fn is_unsigned_channel(c: ChannelType) -> bool {
    c == ChannelType::Uint || c == ChannelType::Unorm || c == ChannelType::Uscaled
}

/// The OpenGL pixel (client) format of a surface type: the colour channels
/// it carries, or depth / depth-stencil.
pub open spec fn spec_glpixel(s: SurfaceType) -> u32 {
    if s == SurfaceType::D24_S8 {
        gl::DEPTH_STENCIL
    } else {
        let n = color_channels(s);
        if n == 0 {
            gl::DEPTH
        } else if n == 1 {
            gl::RED
        } else if n == 2 {
            gl::RG
        } else if n == 3 {
            gl::RGB
        } else {
            gl::RGBA
        }
    }
}

/// The OpenGL scalar data type for `bits`-wide channels of the given
/// channel type; `None` for sRGB.
pub open spec fn scalar_gltype(c: ChannelType, bits: nat) -> Option<u32> {
    if c == ChannelType::Srgb {
        None
    } else if is_signed_channel(c) {
        Some(if bits == 8 { gl::BYTE } else if bits == 16 { gl::SHORT } else { gl::INT })
    } else if is_unsigned_channel(c) {
        Some(
            if bits == 8 {
                gl::UNSIGNED_BYTE
            } else if bits == 16 {
                gl::UNSIGNED_SHORT
            } else {
                gl::UNSIGNED_INT
            },
        )
    } else {
        Some(if bits == 8 { gl::ZERO } else if bits == 16 { gl::HALF_FLOAT } else { gl::FLOAT })
    }
}

/// The OpenGL pixel data type of a format, or `None` where there is none:
/// every sRGB format, and the `R4_G4` and `R11_G11_B10` layouts.
pub open spec fn spec_gltype(f: Format) -> Option<u32> {
    let (s, c) = (f.0, f.1);
    if c == ChannelType::Srgb {
        None
    } else {
        match uniform_channel_bits(s) {
            Some(bits) => scalar_gltype(c, bits),
            None => match s {
                SurfaceType::R3_G3_B2 => Some(gl::UNSIGNED_BYTE_3_3_2),
                SurfaceType::R4_G4_B4_A4 => Some(gl::UNSIGNED_SHORT_4_4_4_4),
                SurfaceType::R5_G5_B5_A1 => Some(gl::UNSIGNED_SHORT_5_5_5_1),
                SurfaceType::R5_G6_B5 => Some(gl::UNSIGNED_SHORT_5_6_5),
                SurfaceType::R10_G10_B10_A2 => Some(gl::UNSIGNED_INT_10_10_10_2),
                SurfaceType::D16 => Some(gl::UNSIGNED_SHORT),
                SurfaceType::D24 => Some(gl::UNSIGNED_INT),
                SurfaceType::D24_S8 => Some(gl::UNSIGNED_INT_24_8),
                SurfaceType::D32 => Some(gl::FLOAT),
                _ => None,
            },
        }
    }
}

/// The sized OpenGL internal format of a format, or `None` when OpenGL has
/// no such format.
pub open spec fn spec_glfull(f: Format) -> Option<u32> {
    match (f.0, f.1) {
        (SurfaceType::R3_G3_B2, ChannelType::Unorm) => Some(gl::R3_G3_B2),
        (SurfaceType::R4_G4_B4_A4, ChannelType::Unorm) => Some(gl::RGBA4),
        (SurfaceType::R5_G5_B5_A1, ChannelType::Unorm) => Some(gl::RGB5_A1),
        (SurfaceType::R5_G6_B5, ChannelType::Unorm) => Some(gl::RGB565),
        (SurfaceType::R8, ChannelType::Int) => Some(gl::R8I),
        (SurfaceType::R8, ChannelType::Inorm) => Some(gl::R8_SNORM),
        (SurfaceType::R8, ChannelType::Uint) => Some(gl::R8UI),
        (SurfaceType::R8, ChannelType::Unorm) => Some(gl::R8),
        (SurfaceType::R8_G8, ChannelType::Int) => Some(gl::RG8I),
        (SurfaceType::R8_G8, ChannelType::Inorm) => Some(gl::RG8_SNORM),
        (SurfaceType::R8_G8, ChannelType::Uint) => Some(gl::RG8UI),
        (SurfaceType::R8_G8, ChannelType::Unorm) => Some(gl::RG8),
        (SurfaceType::R8_G8_B8, ChannelType::Int) => Some(gl::RGB8I),
        (SurfaceType::R8_G8_B8, ChannelType::Inorm) => Some(gl::RGB8_SNORM),
        (SurfaceType::R8_G8_B8, ChannelType::Uint) => Some(gl::RGB8UI),
        (SurfaceType::R8_G8_B8, ChannelType::Unorm) => Some(gl::RGB8),
        (SurfaceType::R8_G8_B8, ChannelType::Srgb) => Some(gl::SRGB8),
        (SurfaceType::R8_G8_B8_A8, ChannelType::Int) => Some(gl::RGBA8I),
        (SurfaceType::R8_G8_B8_A8, ChannelType::Inorm) => Some(gl::RGBA8_SNORM),
        (SurfaceType::R8_G8_B8_A8, ChannelType::Uint) => Some(gl::RGBA8UI),
        (SurfaceType::R8_G8_B8_A8, ChannelType::Unorm) => Some(gl::RGBA8),
        (SurfaceType::R8_G8_B8_A8, ChannelType::Srgb) => Some(gl::SRGB8_ALPHA8),
        (SurfaceType::R10_G10_B10_A2, ChannelType::Uint) => Some(gl::RGB10_A2UI),
        (SurfaceType::R10_G10_B10_A2, ChannelType::Unorm) => Some(gl::RGB10_A2),
        (SurfaceType::R16, ChannelType::Int) => Some(gl::R16I),
        (SurfaceType::R16, ChannelType::Inorm) => Some(gl::R16_SNORM),
        (SurfaceType::R16, ChannelType::Uint) => Some(gl::R16UI),
        (SurfaceType::R16, ChannelType::Unorm) => Some(gl::R16),
        (SurfaceType::R16, ChannelType::Float) => Some(gl::R16F),
        (SurfaceType::R16_G16, ChannelType::Int) => Some(gl::RG16I),
        (SurfaceType::R16_G16, ChannelType::Inorm) => Some(gl::RG16_SNORM),
        (SurfaceType::R16_G16, ChannelType::Uint) => Some(gl::RG16UI),
        (SurfaceType::R16_G16, ChannelType::Unorm) => Some(gl::RG16),
        (SurfaceType::R16_G16, ChannelType::Float) => Some(gl::RG16F),
        (SurfaceType::R16_G16_B16, ChannelType::Int) => Some(gl::RGB16I),
        (SurfaceType::R16_G16_B16, ChannelType::Inorm) => Some(gl::RGB16_SNORM),
        (SurfaceType::R16_G16_B16, ChannelType::Uint) => Some(gl::RGB16UI),
        (SurfaceType::R16_G16_B16, ChannelType::Unorm) => Some(gl::RGB16),
        (SurfaceType::R16_G16_B16, ChannelType::Float) => Some(gl::RGB16F),
        (SurfaceType::R16_G16_B16_A16, ChannelType::Int) => Some(gl::RGBA16I),
        (SurfaceType::R16_G16_B16_A16, ChannelType::Inorm) => Some(gl::RGBA16_SNORM),
        (SurfaceType::R16_G16_B16_A16, ChannelType::Uint) => Some(gl::RGBA16UI),
        (SurfaceType::R16_G16_B16_A16, ChannelType::Unorm) => Some(gl::RGBA16),
        (SurfaceType::R16_G16_B16_A16, ChannelType::Float) => Some(gl::RGBA16F),
        (SurfaceType::R32, ChannelType::Int) => Some(gl::R32I),
        (SurfaceType::R32, ChannelType::Uint) => Some(gl::R32UI),
        (SurfaceType::R32, ChannelType::Float) => Some(gl::R32F),
        (SurfaceType::R32_G32, ChannelType::Int) => Some(gl::RG32I),
        (SurfaceType::R32_G32, ChannelType::Uint) => Some(gl::RG32UI),
        (SurfaceType::R32_G32, ChannelType::Float) => Some(gl::RG32F),
        (SurfaceType::R32_G32_B32, ChannelType::Int) => Some(gl::RGB32I),
        (SurfaceType::R32_G32_B32, ChannelType::Uint) => Some(gl::RGB32UI),
        (SurfaceType::R32_G32_B32, ChannelType::Float) => Some(gl::RGB32F),
        (SurfaceType::R32_G32_B32_A32, ChannelType::Int) => Some(gl::RGBA32I),
        (SurfaceType::R32_G32_B32_A32, ChannelType::Uint) => Some(gl::RGBA32UI),
        (SurfaceType::R32_G32_B32_A32, ChannelType::Float) => Some(gl::RGBA32F),
        (SurfaceType::D16, _) => Some(gl::DEPTH_COMPONENT16),
        (SurfaceType::D24, _) => Some(gl::DEPTH_COMPONENT24),
        (SurfaceType::D24_S8, _) => Some(gl::DEPTH24_STENCIL8),
        (SurfaceType::D32, _) => Some(gl::DEPTH_COMPONENT32F),
        _ => None,
    }
}

/// `Ok` of the value a spec `Option` holds, `Err(())` where it holds none.
pub open spec fn ok_or_unit(o: Option<u32>) -> Result<u32, ()> {
    match o {
        Some(v) => Ok(v),
        None => Err(()),
    }
}

/// The OpenGL pixel format (`RED`, `RG`, `RGB`, `RGBA`, `DEPTH` or
/// `DEPTH_STENCIL`) for the surface type of `format`.
pub fn format_to_glpixel(format: Format) -> (r: u32)
    ensures
        r == spec_glpixel(format.0),
{
    match format.0 {
        SurfaceType::R8 | SurfaceType::R16 | SurfaceType::R32 => gl::RED,
        SurfaceType::R4_G4 | SurfaceType::R8_G8 | SurfaceType::R16_G16
        | SurfaceType::R32_G32 => gl::RG,
        SurfaceType::R8_G8_B8 | SurfaceType::R16_G16_B16 | SurfaceType::R32_G32_B32
        | SurfaceType::R3_G3_B2 | SurfaceType::R5_G6_B5 | SurfaceType::R11_G11_B10 => gl::RGB,
        SurfaceType::R8_G8_B8_A8 | SurfaceType::R16_G16_B16_A16 | SurfaceType::R32_G32_B32_A32
        | SurfaceType::R4_G4_B4_A4 | SurfaceType::R5_G5_B5_A1
        | SurfaceType::R10_G10_B10_A2 => gl::RGBA,
        SurfaceType::D24_S8 => gl::DEPTH_STENCIL,
        SurfaceType::D16 | SurfaceType::D24 | SurfaceType::D32 => gl::DEPTH,
    }
}

/// The OpenGL pixel data type of `format`; `Err(())` for sRGB formats and
/// for the `R4_G4` and `R11_G11_B10` layouts.
pub fn format_to_gltype(format: Format) -> (r: Result<u32, ()>)
    ensures
        r == ok_or_unit(spec_gltype(format)),
{
    let (fm8, fm16, fm32) = match format.1 {
        ChannelType::Int | ChannelType::Inorm | ChannelType::Iscaled => (
            gl::BYTE,
            gl::SHORT,
            gl::INT,
        ),
        ChannelType::Uint | ChannelType::Unorm | ChannelType::Uscaled => (
            gl::UNSIGNED_BYTE,
            gl::UNSIGNED_SHORT,
            gl::UNSIGNED_INT,
        ),
        ChannelType::Float => (gl::ZERO, gl::HALF_FLOAT, gl::FLOAT),
        ChannelType::Srgb => return Err(()),
    };
    Ok(
        match format.0 {
            SurfaceType::R3_G3_B2 => gl::UNSIGNED_BYTE_3_3_2,
            SurfaceType::R4_G4 => return Err(()),
            SurfaceType::R4_G4_B4_A4 => gl::UNSIGNED_SHORT_4_4_4_4,
            SurfaceType::R5_G5_B5_A1 => gl::UNSIGNED_SHORT_5_5_5_1,
            SurfaceType::R5_G6_B5 => gl::UNSIGNED_SHORT_5_6_5,
            SurfaceType::R8 | SurfaceType::R8_G8 | SurfaceType::R8_G8_B8
            | SurfaceType::R8_G8_B8_A8 => fm8,
            SurfaceType::R10_G10_B10_A2 => gl::UNSIGNED_INT_10_10_10_2,
            SurfaceType::R11_G11_B10 => return Err(()),
            SurfaceType::R16 | SurfaceType::R16_G16 | SurfaceType::R16_G16_B16
            | SurfaceType::R16_G16_B16_A16 => fm16,
            SurfaceType::R32 | SurfaceType::R32_G32 | SurfaceType::R32_G32_B32
            | SurfaceType::R32_G32_B32_A32 => fm32,
            SurfaceType::D16 => gl::UNSIGNED_SHORT,
            SurfaceType::D24 => gl::UNSIGNED_INT,
            SurfaceType::D24_S8 => gl::UNSIGNED_INT_24_8,
            SurfaceType::D32 => gl::FLOAT,
        },
    )
}

/// The sized OpenGL internal format of `format`; `Err(())` where OpenGL
/// has none for that pair of surface layout and channel type.
pub fn format_to_glfull(format: Format) -> (r: Result<u32, ()>)
    ensures
        r == ok_or_unit(spec_glfull(format)),
{
    let cty = format.1;
    Ok(match format.0 {
        SurfaceType::R3_G3_B2 => match cty {
            ChannelType::Unorm => gl::R3_G3_B2,
            _ => return Err(()),
        },
        SurfaceType::R4_G4 => return Err(()),
        SurfaceType::R4_G4_B4_A4 => match cty {
            ChannelType::Unorm => gl::RGBA4,
            _ => return Err(()),
        },
        SurfaceType::R5_G5_B5_A1 => match cty {
            ChannelType::Unorm => gl::RGB5_A1,
            _ => return Err(()),
        },
        SurfaceType::R5_G6_B5 => match cty {
            ChannelType::Unorm => gl::RGB565,
            _ => return Err(()),
        },
        // 8 bits
        SurfaceType::R8 => match cty {
            ChannelType::Int => gl::R8I,
            ChannelType::Inorm => gl::R8_SNORM,
            ChannelType::Uint => gl::R8UI,
            ChannelType::Unorm => gl::R8,
            _ => return Err(()),
        },
        SurfaceType::R8_G8 => match cty {
            ChannelType::Int => gl::RG8I,
            ChannelType::Inorm => gl::RG8_SNORM,
            ChannelType::Uint => gl::RG8UI,
            ChannelType::Unorm => gl::RG8,
            _ => return Err(()),
        },
        SurfaceType::R8_G8_B8 => match cty {
            ChannelType::Int => gl::RGB8I,
            ChannelType::Inorm => gl::RGB8_SNORM,
            ChannelType::Uint => gl::RGB8UI,
            ChannelType::Unorm => gl::RGB8,
            ChannelType::Srgb => gl::SRGB8,
            _ => return Err(()),
        },
        SurfaceType::R8_G8_B8_A8 => match cty {
            ChannelType::Int => gl::RGBA8I,
            ChannelType::Inorm => gl::RGBA8_SNORM,
            ChannelType::Uint => gl::RGBA8UI,
            ChannelType::Unorm => gl::RGBA8,
            ChannelType::Srgb => gl::SRGB8_ALPHA8,
            _ => return Err(()),
        },
        // 10+ bits
        SurfaceType::R10_G10_B10_A2 => match cty {
            ChannelType::Uint => gl::RGB10_A2UI,
            ChannelType::Unorm => gl::RGB10_A2,
            _ => return Err(()),
        },
        SurfaceType::R11_G11_B10 => return Err(()),
        // 16 bits
        SurfaceType::R16 => match cty {
            ChannelType::Int => gl::R16I,
            ChannelType::Inorm => gl::R16_SNORM,
            ChannelType::Uint => gl::R16UI,
            ChannelType::Unorm => gl::R16,
            ChannelType::Float => gl::R16F,
            _ => return Err(()),
        },
        SurfaceType::R16_G16 => match cty {
            ChannelType::Int => gl::RG16I,
            ChannelType::Inorm => gl::RG16_SNORM,
            ChannelType::Uint => gl::RG16UI,
            ChannelType::Unorm => gl::RG16,
            ChannelType::Float => gl::RG16F,
            _ => return Err(()),
        },
        SurfaceType::R16_G16_B16 => match cty {
            ChannelType::Int => gl::RGB16I,
            ChannelType::Inorm => gl::RGB16_SNORM,
            ChannelType::Uint => gl::RGB16UI,
            ChannelType::Unorm => gl::RGB16,
            ChannelType::Float => gl::RGB16F,
            _ => return Err(()),
        },
        SurfaceType::R16_G16_B16_A16 => match cty {
            ChannelType::Int => gl::RGBA16I,
            ChannelType::Inorm => gl::RGBA16_SNORM,
            ChannelType::Uint => gl::RGBA16UI,
            ChannelType::Unorm => gl::RGBA16,
            ChannelType::Float => gl::RGBA16F,
            _ => return Err(()),
        },
        // 32 bits
        SurfaceType::R32 => match cty {
            ChannelType::Int => gl::R32I,
            ChannelType::Uint => gl::R32UI,
            ChannelType::Float => gl::R32F,
            _ => return Err(()),
        },
        SurfaceType::R32_G32 => match cty {
            ChannelType::Int => gl::RG32I,
            ChannelType::Uint => gl::RG32UI,
            ChannelType::Float => gl::RG32F,
            _ => return Err(()),
        },
        SurfaceType::R32_G32_B32 => match cty {
            ChannelType::Int => gl::RGB32I,
            ChannelType::Uint => gl::RGB32UI,
            ChannelType::Float => gl::RGB32F,
            _ => return Err(()),
        },
        SurfaceType::R32_G32_B32_A32 => match cty {
            ChannelType::Int => gl::RGBA32I,
            ChannelType::Uint => gl::RGBA32UI,
            ChannelType::Float => gl::RGBA32F,
            _ => return Err(()),
        },
        // depth-stencil
        SurfaceType::D16 => gl::DEPTH_COMPONENT16,
        SurfaceType::D24 => gl::DEPTH_COMPONENT24,
        SurfaceType::D24_S8 => gl::DEPTH24_STENCIL8,
        SurfaceType::D32 => gl::DEPTH_COMPONENT32F,
    })
}

} // verus!
