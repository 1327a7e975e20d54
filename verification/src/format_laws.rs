//! Properties of the OpenGL formats and data types chosen for a format,
//! stated against what the OpenGL enumerants mean.

use vstd::prelude::*;
use crate::format::{
    color_channels, spec_glfull, spec_glpixel, spec_gltype, uniform_channel_bits, ChannelType, Format,
    SurfaceType,
};
use crate::glenum as gl;

verus! {

/// The colour format an OpenGL sized internal format stores: its channel
/// layout and how the channels are read. `None` for values that are no
/// sized colour format.
pub open spec fn sized_color_format_of(v: u32) -> Option<Format> {
    let f = |s: SurfaceType, c: ChannelType| Some(Format(s, c));
    if v == gl::R3_G3_B2 { f(SurfaceType::R3_G3_B2, ChannelType::Unorm) }
    else if v == gl::RGBA4 { f(SurfaceType::R4_G4_B4_A4, ChannelType::Unorm) }
    else if v == gl::RGB5_A1 { f(SurfaceType::R5_G5_B5_A1, ChannelType::Unorm) }
    else if v == gl::RGB565 { f(SurfaceType::R5_G6_B5, ChannelType::Unorm) }
    else if v == gl::R8I { f(SurfaceType::R8, ChannelType::Int) }
    else if v == gl::R8_SNORM { f(SurfaceType::R8, ChannelType::Inorm) }
    else if v == gl::R8UI { f(SurfaceType::R8, ChannelType::Uint) }
    else if v == gl::R8 { f(SurfaceType::R8, ChannelType::Unorm) }
    else if v == gl::RG8I { f(SurfaceType::R8_G8, ChannelType::Int) }
    else if v == gl::RG8_SNORM { f(SurfaceType::R8_G8, ChannelType::Inorm) }
    else if v == gl::RG8UI { f(SurfaceType::R8_G8, ChannelType::Uint) }
    else if v == gl::RG8 { f(SurfaceType::R8_G8, ChannelType::Unorm) }
    else if v == gl::RGB8I { f(SurfaceType::R8_G8_B8, ChannelType::Int) }
    else if v == gl::RGB8_SNORM { f(SurfaceType::R8_G8_B8, ChannelType::Inorm) }
    else if v == gl::RGB8UI { f(SurfaceType::R8_G8_B8, ChannelType::Uint) }
    else if v == gl::RGB8 { f(SurfaceType::R8_G8_B8, ChannelType::Unorm) }
    else if v == gl::SRGB8 { f(SurfaceType::R8_G8_B8, ChannelType::Srgb) }
    else if v == gl::RGBA8I { f(SurfaceType::R8_G8_B8_A8, ChannelType::Int) }
    else if v == gl::RGBA8_SNORM { f(SurfaceType::R8_G8_B8_A8, ChannelType::Inorm) }
    else if v == gl::RGBA8UI { f(SurfaceType::R8_G8_B8_A8, ChannelType::Uint) }
    else if v == gl::RGBA8 { f(SurfaceType::R8_G8_B8_A8, ChannelType::Unorm) }
    else if v == gl::SRGB8_ALPHA8 { f(SurfaceType::R8_G8_B8_A8, ChannelType::Srgb) }
    else if v == gl::RGB10_A2UI { f(SurfaceType::R10_G10_B10_A2, ChannelType::Uint) }
    else if v == gl::RGB10_A2 { f(SurfaceType::R10_G10_B10_A2, ChannelType::Unorm) }
    else if v == gl::R16I { f(SurfaceType::R16, ChannelType::Int) }
    else if v == gl::R16_SNORM { f(SurfaceType::R16, ChannelType::Inorm) }
    else if v == gl::R16UI { f(SurfaceType::R16, ChannelType::Uint) }
    else if v == gl::R16 { f(SurfaceType::R16, ChannelType::Unorm) }
    else if v == gl::R16F { f(SurfaceType::R16, ChannelType::Float) }
    else if v == gl::RG16I { f(SurfaceType::R16_G16, ChannelType::Int) }
    else if v == gl::RG16_SNORM { f(SurfaceType::R16_G16, ChannelType::Inorm) }
    else if v == gl::RG16UI { f(SurfaceType::R16_G16, ChannelType::Uint) }
    else if v == gl::RG16 { f(SurfaceType::R16_G16, ChannelType::Unorm) }
    else if v == gl::RG16F { f(SurfaceType::R16_G16, ChannelType::Float) }
    else if v == gl::RGB16I { f(SurfaceType::R16_G16_B16, ChannelType::Int) }
    else if v == gl::RGB16_SNORM { f(SurfaceType::R16_G16_B16, ChannelType::Inorm) }
    else if v == gl::RGB16UI { f(SurfaceType::R16_G16_B16, ChannelType::Uint) }
    else if v == gl::RGB16 { f(SurfaceType::R16_G16_B16, ChannelType::Unorm) }
    else if v == gl::RGB16F { f(SurfaceType::R16_G16_B16, ChannelType::Float) }
    else if v == gl::RGBA16I { f(SurfaceType::R16_G16_B16_A16, ChannelType::Int) }
    else if v == gl::RGBA16_SNORM { f(SurfaceType::R16_G16_B16_A16, ChannelType::Inorm) }
    else if v == gl::RGBA16UI { f(SurfaceType::R16_G16_B16_A16, ChannelType::Uint) }
    else if v == gl::RGBA16 { f(SurfaceType::R16_G16_B16_A16, ChannelType::Unorm) }
    else if v == gl::RGBA16F { f(SurfaceType::R16_G16_B16_A16, ChannelType::Float) }
    else if v == gl::R32I { f(SurfaceType::R32, ChannelType::Int) }
    else if v == gl::R32UI { f(SurfaceType::R32, ChannelType::Uint) }
    else if v == gl::R32F { f(SurfaceType::R32, ChannelType::Float) }
    else if v == gl::RG32I { f(SurfaceType::R32_G32, ChannelType::Int) }
    else if v == gl::RG32UI { f(SurfaceType::R32_G32, ChannelType::Uint) }
    else if v == gl::RG32F { f(SurfaceType::R32_G32, ChannelType::Float) }
    else if v == gl::RGB32I { f(SurfaceType::R32_G32_B32, ChannelType::Int) }
    else if v == gl::RGB32UI { f(SurfaceType::R32_G32_B32, ChannelType::Uint) }
    else if v == gl::RGB32F { f(SurfaceType::R32_G32_B32, ChannelType::Float) }
    else if v == gl::RGBA32I { f(SurfaceType::R32_G32_B32_A32, ChannelType::Int) }
    else if v == gl::RGBA32UI { f(SurfaceType::R32_G32_B32_A32, ChannelType::Uint) }
    else if v == gl::RGBA32F { f(SurfaceType::R32_G32_B32_A32, ChannelType::Float) }
    else { None }
}

/// The sized internal format of a colour format stores exactly that
/// format: the same channel layout, read the same way (integer, normalized,
/// floating point or sRGB).
pub proof fn law_sized_format_keeps_the_format(f: Format)
    ensures
        color_channels(f.0) > 0 ==> (spec_glfull(f) matches Some(v) ==> sized_color_format_of(v)
            == Some(f)),
{
}

/// No two colour formats share a sized internal format.
pub proof fn law_sized_colour_formats_are_distinct(f1: Format, f2: Format)
    requires
        color_channels(f1.0) > 0,
        color_channels(f2.0) > 0,
        spec_glfull(f1) is Some,
        spec_glfull(f1) == spec_glfull(f2),
    ensures
        f1 == f2,
{
    law_sized_format_keeps_the_format(f1);
    law_sized_format_keeps_the_format(f2);
}

/// The half-float sized format with the given number of channels.
pub open spec fn half_float_format(channels: nat) -> u32 {
    if channels == 1 {
        gl::R16F
    } else if channels == 2 {
        gl::RG16F
    } else if channels == 3 {
        gl::RGB16F
    } else {
        gl::RGBA16F
    }
}

/// Floating-point formats with 16-bit channels get the half-float sized
/// format of their channel count.
pub proof fn law_half_float_formats(s: SurfaceType)
    ensures
        uniform_channel_bits(s) == Some(16nat) ==> spec_glfull(Format(s, ChannelType::Float))
            == Some(half_float_format(color_channels(s))),
{
}

/// How the channels of a type are read.
#[derive(Clone, Copy, Debug, PartialEq, Eq, Structural)]
pub enum ScalarKind {
    Signed,
    Unsigned,
    Floating,
}

/// The kind of scalar a channel type is stored as; `None` for sRGB.
pub open spec fn channel_scalar_kind(c: ChannelType) -> Option<ScalarKind> {
    match c {
        ChannelType::Int | ChannelType::Inorm | ChannelType::Iscaled => Some(ScalarKind::Signed),
        ChannelType::Uint | ChannelType::Unorm | ChannelType::Uscaled => Some(
            ScalarKind::Unsigned,
        ),
        ChannelType::Float => Some(ScalarKind::Floating),
        ChannelType::Srgb => None,
    }
}

/// What an OpenGL scalar data type holds: the kind of scalar and its width
/// in bits. `None` for values that are no scalar data type.
pub open spec fn scalar_type_layout(t: u32) -> Option<(ScalarKind, nat)> {
    if t == gl::BYTE {
        Some((ScalarKind::Signed, 8nat))
    } else if t == gl::UNSIGNED_BYTE {
        Some((ScalarKind::Unsigned, 8nat))
    } else if t == gl::SHORT {
        Some((ScalarKind::Signed, 16nat))
    } else if t == gl::UNSIGNED_SHORT {
        Some((ScalarKind::Unsigned, 16nat))
    } else if t == gl::INT {
        Some((ScalarKind::Signed, 32nat))
    } else if t == gl::UNSIGNED_INT {
        Some((ScalarKind::Unsigned, 32nat))
    } else if t == gl::HALF_FLOAT {
        Some((ScalarKind::Floating, 16nat))
    } else if t == gl::FLOAT {
        Some((ScalarKind::Floating, 32nat))
    } else {
        None
    }
}

/// The data type of a format whose channels all have 8, 16 or 32 bits is
/// the scalar type of the channels' kind and width; floating-point data of
/// 8-bit channels, which has no such type, gets `ZERO`.
pub proof fn law_data_type_matches_the_channels(f: Format)
    ensures
        uniform_channel_bits(f.0) matches Some(bits) ==> (channel_scalar_kind(f.1) matches Some(
            k,
        ) ==> if k == ScalarKind::Floating && bits == 8 {
            spec_gltype(f) == Some(gl::ZERO)
        } else {
            spec_gltype(f) matches Some(t) && scalar_type_layout(t) == Some((k, bits))
        }),
{
}

/// Formats of unsigned channel types never get a signed data type.
pub proof fn law_unsigned_formats_get_unsigned_types(f: Format)
    ensures
        channel_scalar_kind(f.1) == Some(ScalarKind::Unsigned) ==> (spec_gltype(f) matches Some(t)
            ==> !(scalar_type_layout(t) matches Some((k, _)) && k == ScalarKind::Signed)),
{
}

/// The number of channels an OpenGL pixel (client) format carries; 0 for
/// depth and depth-stencil data, `None` for values that are no pixel format.
pub open spec fn pixel_format_channels(p: u32) -> Option<nat> {
    if p == gl::RED {
        Some(1nat)
    } else if p == gl::RG {
        Some(2nat)
    } else if p == gl::RGB {
        Some(3nat)
    } else if p == gl::RGBA {
        Some(4nat)
    } else if p == gl::DEPTH || p == gl::DEPTH_STENCIL {
        Some(0nat)
    } else {
        None
    }
}

/// The number of channels an OpenGL sized colour format stores.
pub open spec fn sized_format_channels(v: u32) -> nat {
    if v == gl::R8I || v == gl::R8_SNORM || v == gl::R8UI || v == gl::R8 || v == gl::R16I || v
        == gl::R16_SNORM || v == gl::R16UI || v == gl::R16 || v == gl::R16F || v == gl::R32I || v
        == gl::R32UI || v == gl::R32F {
        1
    } else if v == gl::RG8I || v == gl::RG8_SNORM || v == gl::RG8UI || v == gl::RG8 || v
        == gl::RG16I || v == gl::RG16_SNORM || v == gl::RG16UI || v == gl::RG16 || v == gl::RG16F
        || v == gl::RG32I || v == gl::RG32UI || v == gl::RG32F {
        2
    } else if v == gl::R3_G3_B2 || v == gl::RGB565 || v == gl::RGB8I || v == gl::RGB8_SNORM || v
        == gl::RGB8UI || v == gl::RGB8 || v == gl::SRGB8 || v == gl::RGB16I || v
        == gl::RGB16_SNORM || v == gl::RGB16UI || v == gl::RGB16 || v == gl::RGB16F || v
        == gl::RGB32I || v == gl::RGB32UI || v == gl::RGB32F {
        3
    } else {
        4
    }
}

/// The client data of a colour format carries as many channels as its
/// sized internal format stores.
pub proof fn law_pixel_format_matches_the_sized_format(f: Format)
    ensures
        color_channels(f.0) > 0 ==> (spec_glfull(f) matches Some(v) ==> pixel_format_channels(
            spec_glpixel(f.0),
        ) == Some(sized_format_channels(v))),
{
}

/// Depth data is described as depth-stencil data exactly for the format
/// whose sized format stores stencil, and as depth data for the other depth
/// formats.
pub proof fn law_depth_stencil_agrees(f: Format)
    ensures
        color_channels(f.0) == 0 ==> {
            &&& spec_glfull(f) is Some
            &&& (spec_glpixel(f.0) == gl::DEPTH_STENCIL) <==> (spec_glfull(f) == Some(
                gl::DEPTH24_STENCIL8,
            ))
            &&& (spec_glpixel(f.0) == gl::DEPTH) <==> (spec_glfull(f) != Some(
                gl::DEPTH24_STENCIL8,
            ))
        },
{
}

} // verus!
