//! Properties of the OpenGL targets and sampling values chosen for texture
//! kinds, cube faces, filters, wrap modes and comparisons, stated against
//! what the OpenGL enumerants mean.

use vstd::prelude::*;
use crate::glenum as gl;
use crate::tex::{
    is_linear, spec_cube_face_to_gl, spec_filter_to_gl, spec_kind_to_gl, spec_map_comparison,
    spec_wrap_to_gl, uses_mipmaps, AaMode, Comparison, CubeFace, FilterMethod, Kind, WrapMode,
};

verus! {

/// What a texture target addresses: the dimensionality of its images,
/// whether it holds an array of them, whether they are cube faces, and
/// whether they are multisampled. `None` for values that are no texture
/// target.
pub open spec fn target_layout(t: u32) -> Option<(nat, bool, bool, bool)> {
    if t == gl::TEXTURE_1D {
        Some((1nat, false, false, false))
    } else if t == gl::TEXTURE_1D_ARRAY {
        Some((1nat, true, false, false))
    } else if t == gl::TEXTURE_2D {
        Some((2nat, false, false, false))
    } else if t == gl::TEXTURE_2D_MULTISAMPLE {
        Some((2nat, false, false, true))
    } else if t == gl::TEXTURE_2D_ARRAY {
        Some((2nat, true, false, false))
    } else if t == gl::TEXTURE_2D_MULTISAMPLE_ARRAY {
        Some((2nat, true, false, true))
    } else if t == gl::TEXTURE_3D {
        Some((3nat, false, false, false))
    } else if t == gl::TEXTURE_CUBE_MAP {
        Some((2nat, false, true, false))
    } else if t == gl::TEXTURE_CUBE_MAP_ARRAY {
        Some((2nat, true, true, false))
    } else {
        None
    }
}

/// The layout of a texture kind: the dimensionality of its images, whether
/// it is an array, whether it is a cube, and whether it holds more than
/// one sample per texel.
pub open spec fn kind_layout(kind: Kind) -> (nat, bool, bool, bool) {
    match kind {
        Kind::D1(_) => (1nat, false, false, false),
        Kind::D1Array(_, _) => (1nat, true, false, false),
        Kind::D2(_, _, aa) => (2nat, false, false, aa != AaMode::Single),
        Kind::D2Array(_, _, _, aa) => (2nat, true, false, aa != AaMode::Single),
        Kind::D3(_, _, _) => (3nat, false, false, false),
        Kind::Cube(_, _) => (2nat, false, true, false),
        Kind::CubeArray(_, _, _) => (2nat, true, true, false),
    }
}

/// The target of a texture kind addresses textures of exactly that
/// layout; so two kinds share a target exactly when they share a layout.
pub proof fn law_kind_target_matches_the_kind(k1: Kind, k2: Kind)
    ensures
        target_layout(spec_kind_to_gl(k1)) == Some(kind_layout(k1)),
        (spec_kind_to_gl(k1) == spec_kind_to_gl(k2)) <==> (kind_layout(k1) == kind_layout(k2)),
{
}

/// The axis (0 for x, 1 for y, 2 for z) and direction a cube-face target
/// addresses; `None` for values that are no cube-face target.
pub open spec fn face_target_direction(t: u32) -> Option<(nat, bool)> {
    if t == gl::TEXTURE_CUBE_MAP_POSITIVE_X {
        Some((0nat, true))
    } else if t == gl::TEXTURE_CUBE_MAP_NEGATIVE_X {
        Some((0nat, false))
    } else if t == gl::TEXTURE_CUBE_MAP_POSITIVE_Y {
        Some((1nat, true))
    } else if t == gl::TEXTURE_CUBE_MAP_NEGATIVE_Y {
        Some((1nat, false))
    } else if t == gl::TEXTURE_CUBE_MAP_POSITIVE_Z {
        Some((2nat, true))
    } else if t == gl::TEXTURE_CUBE_MAP_NEGATIVE_Z {
        Some((2nat, false))
    } else {
        None
    }
}

/// The axis and direction of a cube face.
pub open spec fn face_direction(f: CubeFace) -> (nat, bool) {
    match f {
        CubeFace::PosX => (0nat, true),
        CubeFace::NegX => (0nat, false),
        CubeFace::PosY => (1nat, true),
        CubeFace::NegY => (1nat, false),
        CubeFace::PosZ => (2nat, true),
        CubeFace::NegZ => (2nat, false),
    }
}

/// A cube face is addressed through the target of its own axis and
/// direction, which is no texture target.
pub proof fn law_face_target_matches_the_face(f: CubeFace)
    ensures
        face_target_direction(spec_cube_face_to_gl(f)) == Some(face_direction(f)),
        target_layout(spec_cube_face_to_gl(f)) is None,
{
}

/// How an OpenGL filter samples: linearly or from the nearest texel, and
/// whether it selects among mipmap levels. `None` for values that are no
/// filter in use here.
pub open spec fn filter_layout(v: u32) -> Option<(bool, bool)> {
    if v == gl::NEAREST {
        Some((false, false))
    } else if v == gl::LINEAR {
        Some((true, false))
    } else if v == gl::NEAREST_MIPMAP_NEAREST {
        Some((false, true))
    } else if v == gl::LINEAR_MIPMAP_LINEAR {
        Some((true, true))
    } else {
        None
    }
}

/// The minification filter interpolates exactly when the method is linear
/// (bilinear, trilinear, anisotropic) and uses mipmaps exactly when the
/// method does (all but scale and bilinear); the magnification filter
/// interpolates as the method does and never uses mipmaps.
pub proof fn law_filters_follow_the_method(f: FilterMethod)
    ensures
        filter_layout(spec_filter_to_gl(f).0) == Some((is_linear(f), uses_mipmaps(f))),
        filter_layout(spec_filter_to_gl(f).1) == Some((is_linear(f), false)),
        is_linear(f) <==> !(f is Scale || f is Mipmap),
        uses_mipmaps(f) <==> !(f is Scale || f is Bilinear),
{
}

/// Distinct wrap modes get distinct OpenGL wrap modes.
pub proof fn law_wrap_modes_are_distinct(w1: WrapMode, w2: WrapMode)
    ensures
        (spec_wrap_to_gl(w1) == spec_wrap_to_gl(w2)) <==> (w1 == w2),
{
}

/// Whether a comparison holds of a reference value `x` and a stored value
/// `y`.
pub open spec fn comparison_holds(c: Comparison, x: int, y: int) -> bool {
    match c {
        Comparison::Never => false,
        Comparison::Less => x < y,
        Comparison::LessEqual => x <= y,
        Comparison::Equal => x == y,
        Comparison::GreaterEqual => x >= y,
        Comparison::Greater => x > y,
        Comparison::NotEqual => x != y,
        Comparison::Always => true,
    }
}

/// Whether the OpenGL comparison function `func` passes for a reference
/// value `x` and a stored value `y`.
pub open spec fn gl_comparison_passes(func: u32, x: int, y: int) -> bool {
    if func == gl::NEVER {
        false
    } else if func == gl::LESS {
        x < y
    } else if func == gl::LEQUAL {
        x <= y
    } else if func == gl::EQUAL {
        x == y
    } else if func == gl::GEQUAL {
        x >= y
    } else if func == gl::GREATER {
        x > y
    } else if func == gl::NOTEQUAL {
        x != y
    } else {
        func == gl::ALWAYS
    }
}

/// The OpenGL comparison function of a comparison passes exactly when the
/// comparison holds.
pub proof fn law_comparison_function_agrees(c: Comparison, x: int, y: int)
    ensures
        gl_comparison_passes(spec_map_comparison(c), x, y) == comparison_holds(c, x, y),
{
}

} // verus!
