use gfx_tex::format::{
    format_to_glfull, format_to_glpixel, format_to_gltype, ChannelType, Format, SurfaceType,
};
use gfx_tex::glenum as gl;

#[test]
fn pixel_format_follows_channel_count() {
    assert_eq!(format_to_glpixel(Format(SurfaceType::R8, ChannelType::Unorm)), gl::RED);
    assert_eq!(format_to_glpixel(Format(SurfaceType::R4_G4, ChannelType::Unorm)), gl::RG);
    assert_eq!(format_to_glpixel(Format(SurfaceType::R11_G11_B10, ChannelType::Float)), gl::RGB);
    assert_eq!(format_to_glpixel(Format(SurfaceType::R3_G3_B2, ChannelType::Unorm)), gl::RGB);
    assert_eq!(format_to_glpixel(Format(SurfaceType::R10_G10_B10_A2, ChannelType::Uint)), gl::RGBA);
    assert_eq!(format_to_glpixel(Format(SurfaceType::D24_S8, ChannelType::Unorm)), gl::DEPTH_STENCIL);
    assert_eq!(format_to_glpixel(Format(SurfaceType::D32, ChannelType::Float)), gl::DEPTH);
}

#[test]
fn data_type_by_channel_width_and_sign() {
    assert_eq!(format_to_gltype(Format(SurfaceType::R8_G8, ChannelType::Int)), Ok(gl::BYTE));
    assert_eq!(format_to_gltype(Format(SurfaceType::R8_G8, ChannelType::Iscaled)), Ok(gl::BYTE));
    assert_eq!(format_to_gltype(Format(SurfaceType::R16, ChannelType::Inorm)), Ok(gl::SHORT));
    assert_eq!(format_to_gltype(Format(SurfaceType::R32_G32, ChannelType::Uint)), Ok(gl::UNSIGNED_INT));
    assert_eq!(format_to_gltype(Format(SurfaceType::R8_G8_B8_A8, ChannelType::Unorm)), Ok(gl::UNSIGNED_BYTE));
    assert_eq!(format_to_gltype(Format(SurfaceType::R16_G16_B16, ChannelType::Float)), Ok(gl::HALF_FLOAT));
    assert_eq!(format_to_gltype(Format(SurfaceType::R32, ChannelType::Float)), Ok(gl::FLOAT));
    assert_eq!(format_to_gltype(Format(SurfaceType::R8, ChannelType::Float)), Ok(gl::ZERO));
}

#[test]
fn data_type_of_packed_and_depth_layouts() {
    assert_eq!(format_to_gltype(Format(SurfaceType::R3_G3_B2, ChannelType::Unorm)), Ok(gl::UNSIGNED_BYTE_3_3_2));
    assert_eq!(format_to_gltype(Format(SurfaceType::R5_G6_B5, ChannelType::Unorm)), Ok(gl::UNSIGNED_SHORT_5_6_5));
    assert_eq!(format_to_gltype(Format(SurfaceType::R10_G10_B10_A2, ChannelType::Unorm)), Ok(gl::UNSIGNED_INT_10_10_10_2));
    assert_eq!(format_to_gltype(Format(SurfaceType::D16, ChannelType::Unorm)), Ok(gl::UNSIGNED_SHORT));
    assert_eq!(format_to_gltype(Format(SurfaceType::D24_S8, ChannelType::Unorm)), Ok(gl::UNSIGNED_INT_24_8));
    assert_eq!(format_to_gltype(Format(SurfaceType::D32, ChannelType::Float)), Ok(gl::FLOAT));
}

#[test]
fn data_type_missing_for_srgb_and_two_layouts() {
    assert_eq!(format_to_gltype(Format(SurfaceType::R8_G8_B8_A8, ChannelType::Srgb)), Err(()));
    assert_eq!(format_to_gltype(Format(SurfaceType::D16, ChannelType::Srgb)), Err(()));
    assert_eq!(format_to_gltype(Format(SurfaceType::R4_G4, ChannelType::Unorm)), Err(()));
    assert_eq!(format_to_gltype(Format(SurfaceType::R11_G11_B10, ChannelType::Float)), Err(()));
}

#[test]
fn sized_formats() {
    assert_eq!(format_to_glfull(Format(SurfaceType::R8_G8_B8_A8, ChannelType::Srgb)), Ok(gl::SRGB8_ALPHA8));
    assert_eq!(format_to_glfull(Format(SurfaceType::R8_G8_B8_A8, ChannelType::Unorm)), Ok(gl::RGBA8));
    assert_eq!(format_to_glfull(Format(SurfaceType::R8_G8_B8, ChannelType::Srgb)), Ok(gl::SRGB8));
    assert_eq!(format_to_glfull(Format(SurfaceType::R8, ChannelType::Inorm)), Ok(gl::R8_SNORM));
    assert_eq!(format_to_glfull(Format(SurfaceType::R16_G16, ChannelType::Float)), Ok(gl::RG16F));
    assert_eq!(format_to_glfull(Format(SurfaceType::R32_G32_B32_A32, ChannelType::Int)), Ok(gl::RGBA32I));
    assert_eq!(format_to_glfull(Format(SurfaceType::R10_G10_B10_A2, ChannelType::Uint)), Ok(gl::RGB10_A2UI));
    assert_eq!(format_to_glfull(Format(SurfaceType::R5_G5_B5_A1, ChannelType::Unorm)), Ok(gl::RGB5_A1));
    assert_eq!(format_to_glfull(Format(SurfaceType::D24, ChannelType::Float)), Ok(gl::DEPTH_COMPONENT24));
    assert_eq!(format_to_glfull(Format(SurfaceType::D24_S8, ChannelType::Unorm)), Ok(gl::DEPTH24_STENCIL8));
}

#[test]
fn sized_formats_missing() {
    assert_eq!(format_to_glfull(Format(SurfaceType::R4_G4, ChannelType::Unorm)), Err(()));
    assert_eq!(format_to_glfull(Format(SurfaceType::R11_G11_B10, ChannelType::Float)), Err(()));
    assert_eq!(format_to_glfull(Format(SurfaceType::R8, ChannelType::Srgb)), Err(()));
    assert_eq!(format_to_glfull(Format(SurfaceType::R8, ChannelType::Uscaled)), Err(()));
    assert_eq!(format_to_glfull(Format(SurfaceType::R32, ChannelType::Inorm)), Err(()));
    assert_eq!(format_to_glfull(Format(SurfaceType::R3_G3_B2, ChannelType::Uint)), Err(()));
    assert_eq!(format_to_glfull(Format(SurfaceType::R16_G16_B16_A16, ChannelType::Srgb)), Err(()));
}
