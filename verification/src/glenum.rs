//! Numeric values of the OpenGL enumerants that texture and sampler set-up uses.
//! They are fixed by the OpenGL registry; `GLboolean` values are `u8`, all others `GLenum` (`u32`).

use vstd::prelude::*;

verus! {

pub const BYTE: u32 = 0x1400;
pub const CLAMP_TO_EDGE: u32 = 0x812F;
pub const COMPARE_REF_TO_TEXTURE: u32 = 0x884E;
pub const DEPTH: u32 = 0x1801;
pub const DEPTH24_STENCIL8: u32 = 0x88F0;
pub const DEPTH_COMPONENT16: u32 = 0x81A5;
pub const DEPTH_COMPONENT24: u32 = 0x81A6;
pub const DEPTH_COMPONENT32F: u32 = 0x8CAC;
pub const DEPTH_STENCIL: u32 = 0x84F9;
pub const FALSE: u8 = 0;
pub const FLOAT: u32 = 0x1406;
pub const HALF_FLOAT: u32 = 0x140B;
pub const INT: u32 = 0x1404;
pub const LINEAR: u32 = 0x2601;
pub const LINEAR_MIPMAP_LINEAR: u32 = 0x2703;
pub const MIRRORED_REPEAT: u32 = 0x8370;
pub const NEAREST: u32 = 0x2600;
pub const NEAREST_MIPMAP_NEAREST: u32 = 0x2700;
pub const NONE: u32 = 0;
pub const R16: u32 = 0x822A;
pub const R16F: u32 = 0x822D;
pub const R16I: u32 = 0x8233;
pub const R16UI: u32 = 0x8234;
pub const R16_SNORM: u32 = 0x8F98;
pub const R32F: u32 = 0x822E;
pub const R32I: u32 = 0x8235;
pub const R32UI: u32 = 0x8236;
pub const R3_G3_B2: u32 = 0x2A10;
pub const R8: u32 = 0x8229;
pub const R8I: u32 = 0x8231;
pub const R8UI: u32 = 0x8232;
pub const R8_SNORM: u32 = 0x8F94;
pub const RED: u32 = 0x1903;
pub const RENDERBUFFER: u32 = 0x8D41;
pub const REPEAT: u32 = 0x2901;
pub const RG: u32 = 0x8227;
pub const RG16: u32 = 0x822C;
pub const RG16F: u32 = 0x822F;
pub const RG16I: u32 = 0x8239;
pub const RG16UI: u32 = 0x823A;
pub const RG16_SNORM: u32 = 0x8F99;
pub const RG32F: u32 = 0x8230;
pub const RG32I: u32 = 0x823B;
pub const RG32UI: u32 = 0x823C;
pub const RG8: u32 = 0x822B;
pub const RG8I: u32 = 0x8237;
pub const RG8UI: u32 = 0x8238;
pub const RG8_SNORM: u32 = 0x8F95;
pub const RGB: u32 = 0x1907;
pub const RGB10_A2: u32 = 0x8059;
pub const RGB10_A2UI: u32 = 0x906F;
pub const RGB16: u32 = 0x8054;
pub const RGB16F: u32 = 0x881B;
pub const RGB16I: u32 = 0x8D89;
pub const RGB16UI: u32 = 0x8D77;
pub const RGB16_SNORM: u32 = 0x8F9A;
pub const RGB32F: u32 = 0x8815;
pub const RGB32I: u32 = 0x8D83;
pub const RGB32UI: u32 = 0x8D71;
pub const RGB565: u32 = 0x8D62;
pub const RGB5_A1: u32 = 0x8057;
pub const RGB8: u32 = 0x8051;
pub const RGB8I: u32 = 0x8D8F;
pub const RGB8UI: u32 = 0x8D7D;
pub const RGB8_SNORM: u32 = 0x8F96;
pub const RGBA: u32 = 0x1908;
pub const RGBA16: u32 = 0x805B;
pub const RGBA16F: u32 = 0x881A;
pub const RGBA16I: u32 = 0x8D88;
pub const RGBA16UI: u32 = 0x8D76;
pub const RGBA16_SNORM: u32 = 0x8F9B;
pub const RGBA32F: u32 = 0x8814;
pub const RGBA32I: u32 = 0x8D82;
pub const RGBA32UI: u32 = 0x8D70;
pub const RGBA4: u32 = 0x8056;
pub const RGBA8: u32 = 0x8058;
pub const RGBA8I: u32 = 0x8D8E;
pub const RGBA8UI: u32 = 0x8D7C;
pub const RGBA8_SNORM: u32 = 0x8F97;
pub const SHORT: u32 = 0x1402;
pub const SRGB8: u32 = 0x8C41;
pub const SRGB8_ALPHA8: u32 = 0x8C43;
pub const TEXTURE_1D: u32 = 0x0DE0;
pub const TEXTURE_1D_ARRAY: u32 = 0x8C18;
pub const TEXTURE_2D: u32 = 0x0DE1;
pub const TEXTURE_2D_ARRAY: u32 = 0x8C1A;
pub const TEXTURE_2D_MULTISAMPLE: u32 = 0x9100;
pub const TEXTURE_2D_MULTISAMPLE_ARRAY: u32 = 0x9102;
pub const TEXTURE_3D: u32 = 0x806F;
pub const TEXTURE_BASE_LEVEL: u32 = 0x813C;
pub const TEXTURE_COMPARE_FUNC: u32 = 0x884D;
pub const TEXTURE_COMPARE_MODE: u32 = 0x884C;
pub const TEXTURE_CUBE_MAP: u32 = 0x8513;
pub const TEXTURE_CUBE_MAP_ARRAY: u32 = 0x9009;
pub const TEXTURE_CUBE_MAP_NEGATIVE_X: u32 = 0x8516;
pub const TEXTURE_CUBE_MAP_NEGATIVE_Y: u32 = 0x8518;
pub const TEXTURE_CUBE_MAP_NEGATIVE_Z: u32 = 0x851A;
pub const TEXTURE_CUBE_MAP_POSITIVE_X: u32 = 0x8515;
pub const TEXTURE_CUBE_MAP_POSITIVE_Y: u32 = 0x8517;
pub const TEXTURE_CUBE_MAP_POSITIVE_Z: u32 = 0x8519;
pub const TEXTURE_LOD_BIAS: u32 = 0x8501;
pub const TEXTURE_MAG_FILTER: u32 = 0x2800;
pub const TEXTURE_MAX_ANISOTROPY_EXT: u32 = 0x84FE;
pub const TEXTURE_MAX_LEVEL: u32 = 0x813D;
pub const TEXTURE_MAX_LOD: u32 = 0x813B;
pub const TEXTURE_MIN_FILTER: u32 = 0x2801;
pub const TEXTURE_MIN_LOD: u32 = 0x813A;
pub const TEXTURE_WRAP_R: u32 = 0x8072;
pub const TEXTURE_WRAP_S: u32 = 0x2802;
pub const TEXTURE_WRAP_T: u32 = 0x2803;
pub const TRUE: u8 = 1;
pub const UNSIGNED_BYTE: u32 = 0x1401;
pub const UNSIGNED_BYTE_3_3_2: u32 = 0x8032;
pub const UNSIGNED_INT: u32 = 0x1405;
pub const UNSIGNED_INT_10_10_10_2: u32 = 0x8036;
pub const UNSIGNED_INT_24_8: u32 = 0x84FA;
pub const UNSIGNED_SHORT: u32 = 0x1403;
pub const UNSIGNED_SHORT_4_4_4_4: u32 = 0x8033;
pub const UNSIGNED_SHORT_5_5_5_1: u32 = 0x8034;
pub const UNSIGNED_SHORT_5_6_5: u32 = 0x8363;
pub const ZERO: u32 = 0;
pub const NEVER: u32 = 0x0200;
pub const LESS: u32 = 0x0201;
pub const LEQUAL: u32 = 0x0203;
pub const EQUAL: u32 = 0x0202;
pub const GEQUAL: u32 = 0x0206;
pub const GREATER: u32 = 0x0204;
pub const NOTEQUAL: u32 = 0x0205;
pub const ALWAYS: u32 = 0x0207;

} // verus!
