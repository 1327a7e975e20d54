//! The enumerant values the library uses agree with those of the OpenGL bindings.

use gfx_tex::glenum;

#[test]
fn glenum_values_agree_with_bindings() {
    assert_eq!(glenum::BYTE, gfx_gl::BYTE);
    assert_eq!(glenum::CLAMP_TO_EDGE, gfx_gl::CLAMP_TO_EDGE);
    assert_eq!(glenum::COMPARE_REF_TO_TEXTURE, gfx_gl::COMPARE_REF_TO_TEXTURE);
    assert_eq!(glenum::DEPTH, gfx_gl::DEPTH);
    assert_eq!(glenum::DEPTH24_STENCIL8, gfx_gl::DEPTH24_STENCIL8);
    assert_eq!(glenum::DEPTH_COMPONENT16, gfx_gl::DEPTH_COMPONENT16);
    assert_eq!(glenum::DEPTH_COMPONENT24, gfx_gl::DEPTH_COMPONENT24);
    assert_eq!(glenum::DEPTH_COMPONENT32F, gfx_gl::DEPTH_COMPONENT32F);
    assert_eq!(glenum::DEPTH_STENCIL, gfx_gl::DEPTH_STENCIL);
    assert_eq!(glenum::FALSE, gfx_gl::FALSE);
    assert_eq!(glenum::FLOAT, gfx_gl::FLOAT);
    assert_eq!(glenum::HALF_FLOAT, gfx_gl::HALF_FLOAT);
    assert_eq!(glenum::INT, gfx_gl::INT);
    assert_eq!(glenum::LINEAR, gfx_gl::LINEAR);
    assert_eq!(glenum::LINEAR_MIPMAP_LINEAR, gfx_gl::LINEAR_MIPMAP_LINEAR);
    assert_eq!(glenum::MIRRORED_REPEAT, gfx_gl::MIRRORED_REPEAT);
    assert_eq!(glenum::NEAREST, gfx_gl::NEAREST);
    assert_eq!(glenum::NEAREST_MIPMAP_NEAREST, gfx_gl::NEAREST_MIPMAP_NEAREST);
    assert_eq!(glenum::NONE, gfx_gl::NONE);
    assert_eq!(glenum::R16, gfx_gl::R16);
    assert_eq!(glenum::R16F, gfx_gl::R16F);
    assert_eq!(glenum::R16I, gfx_gl::R16I);
    assert_eq!(glenum::R16UI, gfx_gl::R16UI);
    assert_eq!(glenum::R16_SNORM, gfx_gl::R16_SNORM);
    assert_eq!(glenum::R32F, gfx_gl::R32F);
    assert_eq!(glenum::R32I, gfx_gl::R32I);
    assert_eq!(glenum::R32UI, gfx_gl::R32UI);
    assert_eq!(glenum::R3_G3_B2, gfx_gl::R3_G3_B2);
    assert_eq!(glenum::R8, gfx_gl::R8);
    assert_eq!(glenum::R8I, gfx_gl::R8I);
    assert_eq!(glenum::R8UI, gfx_gl::R8UI);
    assert_eq!(glenum::R8_SNORM, gfx_gl::R8_SNORM);
    assert_eq!(glenum::RED, gfx_gl::RED);
    assert_eq!(glenum::RENDERBUFFER, gfx_gl::RENDERBUFFER);
    assert_eq!(glenum::REPEAT, gfx_gl::REPEAT);
    assert_eq!(glenum::RG, gfx_gl::RG);
    assert_eq!(glenum::RG16, gfx_gl::RG16);
    assert_eq!(glenum::RG16F, gfx_gl::RG16F);
    assert_eq!(glenum::RG16I, gfx_gl::RG16I);
    assert_eq!(glenum::RG16UI, gfx_gl::RG16UI);
    assert_eq!(glenum::RG16_SNORM, gfx_gl::RG16_SNORM);
    assert_eq!(glenum::RG32F, gfx_gl::RG32F);
    assert_eq!(glenum::RG32I, gfx_gl::RG32I);
    assert_eq!(glenum::RG32UI, gfx_gl::RG32UI);
    assert_eq!(glenum::RG8, gfx_gl::RG8);
    assert_eq!(glenum::RG8I, gfx_gl::RG8I);
    assert_eq!(glenum::RG8UI, gfx_gl::RG8UI);
    assert_eq!(glenum::RG8_SNORM, gfx_gl::RG8_SNORM);
    assert_eq!(glenum::RGB, gfx_gl::RGB);
    assert_eq!(glenum::RGB10_A2, gfx_gl::RGB10_A2);
    assert_eq!(glenum::RGB10_A2UI, gfx_gl::RGB10_A2UI);
    assert_eq!(glenum::RGB16, gfx_gl::RGB16);
    assert_eq!(glenum::RGB16F, gfx_gl::RGB16F);
    assert_eq!(glenum::RGB16I, gfx_gl::RGB16I);
    assert_eq!(glenum::RGB16UI, gfx_gl::RGB16UI);
    assert_eq!(glenum::RGB16_SNORM, gfx_gl::RGB16_SNORM);
    assert_eq!(glenum::RGB32F, gfx_gl::RGB32F);
    assert_eq!(glenum::RGB32I, gfx_gl::RGB32I);
    assert_eq!(glenum::RGB32UI, gfx_gl::RGB32UI);
    assert_eq!(glenum::RGB565, gfx_gl::RGB565);
    assert_eq!(glenum::RGB5_A1, gfx_gl::RGB5_A1);
    assert_eq!(glenum::RGB8, gfx_gl::RGB8);
    assert_eq!(glenum::RGB8I, gfx_gl::RGB8I);
    assert_eq!(glenum::RGB8UI, gfx_gl::RGB8UI);
    assert_eq!(glenum::RGB8_SNORM, gfx_gl::RGB8_SNORM);
    assert_eq!(glenum::RGBA, gfx_gl::RGBA);
    assert_eq!(glenum::RGBA16, gfx_gl::RGBA16);
    assert_eq!(glenum::RGBA16F, gfx_gl::RGBA16F);
    assert_eq!(glenum::RGBA16I, gfx_gl::RGBA16I);
    assert_eq!(glenum::RGBA16UI, gfx_gl::RGBA16UI);
    assert_eq!(glenum::RGBA16_SNORM, gfx_gl::RGBA16_SNORM);
    assert_eq!(glenum::RGBA32F, gfx_gl::RGBA32F);
    assert_eq!(glenum::RGBA32I, gfx_gl::RGBA32I);
    assert_eq!(glenum::RGBA32UI, gfx_gl::RGBA32UI);
    assert_eq!(glenum::RGBA4, gfx_gl::RGBA4);
    assert_eq!(glenum::RGBA8, gfx_gl::RGBA8);
    assert_eq!(glenum::RGBA8I, gfx_gl::RGBA8I);
    assert_eq!(glenum::RGBA8UI, gfx_gl::RGBA8UI);
    assert_eq!(glenum::RGBA8_SNORM, gfx_gl::RGBA8_SNORM);
    assert_eq!(glenum::SHORT, gfx_gl::SHORT);
    assert_eq!(glenum::SRGB8, gfx_gl::SRGB8);
    assert_eq!(glenum::SRGB8_ALPHA8, gfx_gl::SRGB8_ALPHA8);
    assert_eq!(glenum::TEXTURE_1D, gfx_gl::TEXTURE_1D);
    assert_eq!(glenum::TEXTURE_1D_ARRAY, gfx_gl::TEXTURE_1D_ARRAY);
    assert_eq!(glenum::TEXTURE_2D, gfx_gl::TEXTURE_2D);
    assert_eq!(glenum::TEXTURE_2D_ARRAY, gfx_gl::TEXTURE_2D_ARRAY);
    assert_eq!(glenum::TEXTURE_2D_MULTISAMPLE, gfx_gl::TEXTURE_2D_MULTISAMPLE);
    assert_eq!(glenum::TEXTURE_2D_MULTISAMPLE_ARRAY, gfx_gl::TEXTURE_2D_MULTISAMPLE_ARRAY);
    assert_eq!(glenum::TEXTURE_3D, gfx_gl::TEXTURE_3D);
    assert_eq!(glenum::TEXTURE_BASE_LEVEL, gfx_gl::TEXTURE_BASE_LEVEL);
    assert_eq!(glenum::TEXTURE_COMPARE_FUNC, gfx_gl::TEXTURE_COMPARE_FUNC);
    assert_eq!(glenum::TEXTURE_COMPARE_MODE, gfx_gl::TEXTURE_COMPARE_MODE);
    assert_eq!(glenum::TEXTURE_CUBE_MAP, gfx_gl::TEXTURE_CUBE_MAP);
    assert_eq!(glenum::TEXTURE_CUBE_MAP_ARRAY, gfx_gl::TEXTURE_CUBE_MAP_ARRAY);
    assert_eq!(glenum::TEXTURE_CUBE_MAP_NEGATIVE_X, gfx_gl::TEXTURE_CUBE_MAP_NEGATIVE_X);
    assert_eq!(glenum::TEXTURE_CUBE_MAP_NEGATIVE_Y, gfx_gl::TEXTURE_CUBE_MAP_NEGATIVE_Y);
    assert_eq!(glenum::TEXTURE_CUBE_MAP_NEGATIVE_Z, gfx_gl::TEXTURE_CUBE_MAP_NEGATIVE_Z);
    assert_eq!(glenum::TEXTURE_CUBE_MAP_POSITIVE_X, gfx_gl::TEXTURE_CUBE_MAP_POSITIVE_X);
    assert_eq!(glenum::TEXTURE_CUBE_MAP_POSITIVE_Y, gfx_gl::TEXTURE_CUBE_MAP_POSITIVE_Y);
    assert_eq!(glenum::TEXTURE_CUBE_MAP_POSITIVE_Z, gfx_gl::TEXTURE_CUBE_MAP_POSITIVE_Z);
    assert_eq!(glenum::TEXTURE_LOD_BIAS, gfx_gl::TEXTURE_LOD_BIAS);
    assert_eq!(glenum::TEXTURE_MAG_FILTER, gfx_gl::TEXTURE_MAG_FILTER);
    assert_eq!(glenum::TEXTURE_MAX_ANISOTROPY_EXT, gfx_gl::TEXTURE_MAX_ANISOTROPY_EXT);
    assert_eq!(glenum::TEXTURE_MAX_LEVEL, gfx_gl::TEXTURE_MAX_LEVEL);
    assert_eq!(glenum::TEXTURE_MAX_LOD, gfx_gl::TEXTURE_MAX_LOD);
    assert_eq!(glenum::TEXTURE_MIN_FILTER, gfx_gl::TEXTURE_MIN_FILTER);
    assert_eq!(glenum::TEXTURE_MIN_LOD, gfx_gl::TEXTURE_MIN_LOD);
    assert_eq!(glenum::TEXTURE_WRAP_R, gfx_gl::TEXTURE_WRAP_R);
    assert_eq!(glenum::TEXTURE_WRAP_S, gfx_gl::TEXTURE_WRAP_S);
    assert_eq!(glenum::TEXTURE_WRAP_T, gfx_gl::TEXTURE_WRAP_T);
    assert_eq!(glenum::TRUE, gfx_gl::TRUE);
    assert_eq!(glenum::UNSIGNED_BYTE, gfx_gl::UNSIGNED_BYTE);
    assert_eq!(glenum::UNSIGNED_BYTE_3_3_2, gfx_gl::UNSIGNED_BYTE_3_3_2);
    assert_eq!(glenum::UNSIGNED_INT, gfx_gl::UNSIGNED_INT);
    assert_eq!(glenum::UNSIGNED_INT_10_10_10_2, gfx_gl::UNSIGNED_INT_10_10_10_2);
    assert_eq!(glenum::UNSIGNED_INT_24_8, gfx_gl::UNSIGNED_INT_24_8);
    assert_eq!(glenum::UNSIGNED_SHORT, gfx_gl::UNSIGNED_SHORT);
    assert_eq!(glenum::UNSIGNED_SHORT_4_4_4_4, gfx_gl::UNSIGNED_SHORT_4_4_4_4);
    assert_eq!(glenum::UNSIGNED_SHORT_5_5_5_1, gfx_gl::UNSIGNED_SHORT_5_5_5_1);
    assert_eq!(glenum::UNSIGNED_SHORT_5_6_5, gfx_gl::UNSIGNED_SHORT_5_6_5);
    assert_eq!(glenum::ZERO, gfx_gl::ZERO);
    assert_eq!(glenum::NEVER, gfx_gl::NEVER);
    assert_eq!(glenum::LESS, gfx_gl::LESS);
    assert_eq!(glenum::LEQUAL, gfx_gl::LEQUAL);
    assert_eq!(glenum::EQUAL, gfx_gl::EQUAL);
    assert_eq!(glenum::GEQUAL, gfx_gl::GEQUAL);
    assert_eq!(glenum::GREATER, gfx_gl::GREATER);
    assert_eq!(glenum::NOTEQUAL, gfx_gl::NOTEQUAL);
    assert_eq!(glenum::ALWAYS, gfx_gl::ALWAYS);
}
