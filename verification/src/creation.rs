//! The OpenGL calls that create render surfaces and textures.
//!
//! Creating a surface or a texture generates an object name, binds it, and
//! allocates its storage. The functions here decide everything that does not
//! need a live context: which target the object is bound to, which storage
//! calls follow with which arguments, which mipmap range is set, and which
//! error is reported instead. A caller that holds the context performs the
//! calls in the order described on each type.

use vstd::prelude::*;
use crate::format::{
    format_to_glfull, format_to_glpixel, format_to_gltype, spec_glfull, spec_glpixel, spec_gltype,
    ChannelType, Format,
};
use crate::glenum as gl;
use crate::mip::{bit_len, max3, min_levels, mip_level1, mip_level2, mip_level3};
use crate::tex::{
    kind_to_gl, spec_aa_mode, spec_dimensions, spec_kind_to_gl, AaMode, Descriptor, Dimensions, Error, Kind, SHADER_RESOURCE,
};

verus! {

/// How the storage of a bound renderbuffer is allocated
/// (`RenderbufferStorage` or `RenderbufferStorageMultisample`).
#[derive(Clone, Copy, Debug, PartialEq, Eq, Structural)]
pub enum RenderbufferStorage {
    Single { format: u32, width: i32, height: i32 },
    Multisample { samples: i32, format: u32, width: i32, height: i32 },
}

/// The creation of a render surface: generate a renderbuffer name, bind it
/// to `RENDERBUFFER`, then allocate `storage`; where `storage` is an error,
/// the creation fails with it after the name was generated and bound.
#[derive(Clone, Copy, Debug, PartialEq, Eq)]
pub struct SurfacePlan {
    /// The sized internal format of the surface.
    pub format: u32,
    pub storage: Result<RenderbufferStorage, Error>,
}

/// A texture image allocation without immutable storage (`TexImage*`), with
/// no initial data.
#[allow(inconsistent_fields)]
#[derive(Clone, Copy, Debug, PartialEq, Eq, Structural)]
pub enum TexImageCall {
    Image1D { target: u32, internal_format: i32, width: i32, pixel_format: u32, data_type: u32 },
    Image2D {
        target: u32,
        internal_format: i32,
        width: i32,
        height: i32,
        pixel_format: u32,
        data_type: u32,
    },
    Image3D {
        target: u32,
        internal_format: i32,
        width: i32,
        height: i32,
        depth: i32,
        pixel_format: u32,
        data_type: u32,
    },
    Image2DMultisample {
        target: u32,
        samples: i32,
        internal_format: u32,
        width: i32,
        height: i32,
        fixed_sample_locations: u8,
    },
    Image3DMultisample {
        target: u32,
        samples: i32,
        internal_format: u32,
        width: i32,
        height: i32,
        depth: i32,
        fixed_sample_locations: u8,
    },
}

/// An immutable texture storage allocation (`TexStorage*`).
#[derive(Clone, Copy, Debug, PartialEq, Eq, Structural)]
pub enum StorageCall {
    Storage1D { target: u32, levels: i32, internal_format: u32, width: i32 },
    Storage2D { target: u32, levels: i32, internal_format: u32, width: i32, height: i32 },
    Storage3D {
        target: u32,
        levels: i32,
        internal_format: u32,
        width: i32,
        height: i32,
        depth: i32,
    },
    Storage2DMultisample {
        target: u32,
        samples: i32,
        internal_format: u32,
        width: i32,
        height: i32,
        fixed_sample_locations: u8,
    },
    Storage3DMultisample {
        target: u32,
        samples: i32,
        internal_format: u32,
        width: i32,
        height: i32,
        depth: i32,
        fixed_sample_locations: u8,
    },
}

/// The storage allocation of a texture and the mipmap range that is set on
/// its target afterwards (`TEXTURE_BASE_LEVEL`, `TEXTURE_MAX_LEVEL`). The
/// highest level is one less than the level count; `None` for a count of
/// zero, where that level is below the range of a level.
#[derive(Debug)]
pub struct Allocation<C> {
    pub calls: C,
    pub base_level: u8,
    pub max_level: Option<u8>,
}

/// The highest mipmap level of `levels` levels, `None` for zero levels.
pub open spec fn highest_level(levels: u8) -> Option<u8> {
    if levels >= 1 {
        Some((levels - 1) as u8)
    } else {
        None
    }
}

/// The highest mipmap level of `levels` levels, `None` for zero levels.
pub fn highest_level_of(levels: u8) -> (r: Option<u8>)
    ensures
        r == highest_level(levels),
{
    if levels >= 1 {
        Some(levels - 1)
    } else {
        None
    }
}

/// The creation of a texture: generate a texture name, bind it to `target`,
/// then make the allocation; where the allocation is an error, the creation
/// fails with it after the name was generated and bound.
#[derive(Debug)]
pub struct TexturePlan<C> {
    pub target: u32,
    pub allocation: Result<Allocation<C>, Error>,
}

/// The `GLboolean` for fixed sample locations.
pub open spec fn gl_bool(b: bool) -> u8 {
    if b { gl::TRUE } else { gl::FALSE }
}

/// Whether allocating a texture of this kind with `TexImage*` is supported:
/// every kind but cube arrays and coverage-sampled 2D kinds.
pub open spec fn image_kind_supported(kind: Kind) -> bool {
    match kind {
        Kind::CubeArray(_, _, _) => false,
        Kind::D2(_, _, AaMode::Coverage(_, _)) => false,
        Kind::D2Array(_, _, _, AaMode::Coverage(_, _)) => false,
        _ => true,
    }
}

/// Whether allocating a texture of this kind with `TexStorage*` is
/// supported: every kind but cubes, cube arrays and coverage-sampled 2D
/// kinds.
pub open spec fn storage_kind_supported(kind: Kind) -> bool {
    match kind {
        Kind::Cube(_, _) => false,
        _ => image_kind_supported(kind),
    }
}

/// The error for a kind that cannot be allocated: `Kind` for cube kinds,
/// `Samples` with the sample configuration for coverage sampling.
pub open spec fn kind_error(kind: Kind) -> Error {
    match kind {
        Kind::Cube(_, _) | Kind::CubeArray(_, _, _) => Error::Kind,
        _ => Error::Samples(spec_aa_mode(kind)),
    }
}

/// The targets of the six faces of a cube, in the order their images are
/// allocated.
pub open spec fn cube_face_targets() -> Seq<u32> {
    seq![
        gl::TEXTURE_CUBE_MAP_POSITIVE_X,
        gl::TEXTURE_CUBE_MAP_NEGATIVE_X,
        gl::TEXTURE_CUBE_MAP_POSITIVE_Y,
        gl::TEXTURE_CUBE_MAP_NEGATIVE_Y,
        gl::TEXTURE_CUBE_MAP_POSITIVE_Z,
        gl::TEXTURE_CUBE_MAP_NEGATIVE_Z,
    ]
}

/// The 2D image allocation of one cube face.
pub open spec fn cube_face_image(
    target: u32,
    format: i32,
    w: u16,
    h: u16,
    pix: u32,
    typ: u32,
) -> TexImageCall {
    TexImageCall::Image2D {
        target,
        internal_format: format,
        width: w as i32,
        height: h as i32,
        pixel_format: pix,
        data_type: typ,
    }
}

/// The `TexImage*` calls that allocate a texture of kind `kind`.
pub open spec fn spec_image_calls(
    kind: Kind,
    format: i32,
    pix: u32,
    typ: u32,
    fixed: bool,
) -> Result<Seq<TexImageCall>, Error> {
    let target = spec_kind_to_gl(kind);
    if !image_kind_supported(kind) {
        Err(kind_error(kind))
    } else {
        match kind {
            Kind::D1(w) => Ok(
                seq![TexImageCall::Image1D {
                    target,
                    internal_format: format,
                    width: w as i32,
                    pixel_format: pix,
                    data_type: typ,
                }],
            ),
            Kind::D1Array(w, a) => Ok(
                seq![TexImageCall::Image2D {
                    target,
                    internal_format: format,
                    width: w as i32,
                    height: a as i32,
                    pixel_format: pix,
                    data_type: typ,
                }],
            ),
            Kind::D2(w, h, AaMode::Multi(s)) => Ok(
                seq![TexImageCall::Image2DMultisample {
                    target,
                    samples: s as i32,
                    internal_format: format as u32,
                    width: w as i32,
                    height: h as i32,
                    fixed_sample_locations: gl_bool(fixed),
                }],
            ),
            Kind::D2(w, h, _) => Ok(
                seq![TexImageCall::Image2D {
                    target,
                    internal_format: format,
                    width: w as i32,
                    height: h as i32,
                    pixel_format: pix,
                    data_type: typ,
                }],
            ),
            Kind::D2Array(w, h, a, AaMode::Multi(s)) => Ok(
                seq![TexImageCall::Image3DMultisample {
                    target,
                    samples: s as i32,
                    internal_format: format as u32,
                    width: w as i32,
                    height: h as i32,
                    depth: a as i32,
                    fixed_sample_locations: gl_bool(fixed),
                }],
            ),
            Kind::D2Array(w, h, a, _) => Ok(
                seq![TexImageCall::Image3D {
                    target,
                    internal_format: format,
                    width: w as i32,
                    height: h as i32,
                    depth: a as i32,
                    pixel_format: pix,
                    data_type: typ,
                }],
            ),
            Kind::D3(w, h, d) => Ok(
                seq![TexImageCall::Image3D {
                    target,
                    internal_format: format,
                    width: w as i32,
                    height: h as i32,
                    depth: d as i32,
                    pixel_format: pix,
                    data_type: typ,
                }],
            ),
            Kind::Cube(w, h) => Ok(
                cube_face_targets().map_values(
                    |t: u32| cube_face_image(t, format, w, h, pix, typ),
                ),
            ),
            Kind::CubeArray(_, _, _) => Err(Error::Kind),
        }
    }
}

/// The `TexStorage*` call that allocates a texture of kind `kind` with at
/// most `levels` mipmap levels: the number of levels is capped by the length
/// of a full mipmap chain for the largest side.
pub open spec fn spec_storage_call(
    kind: Kind,
    format: u32,
    levels: u8,
    fixed: bool,
) -> Result<StorageCall, Error> {
    let target = spec_kind_to_gl(kind);
    let cap = |n: nat| if levels as nat <= n { levels as i32 } else { n as i32 };
    if !storage_kind_supported(kind) {
        Err(kind_error(kind))
    } else {
        match kind {
            Kind::D1(w) => Ok(
                StorageCall::Storage1D {
                    target,
                    levels: cap(bit_len(w as nat)),
                    internal_format: format,
                    width: w as i32,
                },
            ),
            Kind::D1Array(w, a) => Ok(
                StorageCall::Storage2D {
                    target,
                    levels: cap(bit_len(w as nat)),
                    internal_format: format,
                    width: w as i32,
                    height: a as i32,
                },
            ),
            Kind::D2(w, h, AaMode::Multi(s)) => Ok(
                StorageCall::Storage2DMultisample {
                    target,
                    samples: s as i32,
                    internal_format: format,
                    width: w as i32,
                    height: h as i32,
                    fixed_sample_locations: gl_bool(fixed),
                },
            ),
            Kind::D2(w, h, _) => Ok(
                StorageCall::Storage2D {
                    target,
                    levels: cap(bit_len(if w >= h { w as nat } else { h as nat })),
                    internal_format: format,
                    width: w as i32,
                    height: h as i32,
                },
            ),
            Kind::D2Array(w, h, a, AaMode::Multi(s)) => Ok(
                StorageCall::Storage3DMultisample {
                    target,
                    samples: s as i32,
                    internal_format: format,
                    width: w as i32,
                    height: h as i32,
                    depth: a as i32,
                    fixed_sample_locations: gl_bool(fixed),
                },
            ),
            Kind::D2Array(w, h, a, _) => Ok(
                StorageCall::Storage3D {
                    target,
                    levels: cap(bit_len(if w >= h { w as nat } else { h as nat })),
                    internal_format: format,
                    width: w as i32,
                    height: h as i32,
                    depth: a as i32,
                },
            ),
            Kind::D3(w, h, d) => Ok(
                StorageCall::Storage3D {
                    target,
                    levels: cap(bit_len(max3(w, h, d) as nat)),
                    internal_format: format,
                    width: w as i32,
                    height: h as i32,
                    depth: d as i32,
                },
            ),
            _ => Err(Error::Kind),
        }
    }
}

/// The renderbuffer storage for a surface of dimensions `dim`; `Err(())`
/// for coverage sampling.
pub open spec fn spec_surface_storage(format: u32, dim: Dimensions) -> Result<
    RenderbufferStorage,
    (),
> {
    match dim.3 {
        AaMode::Single => Ok(
            RenderbufferStorage::Single { format, width: dim.0 as i32, height: dim.1 as i32 },
        ),
        AaMode::Multi(s) => Ok(
            RenderbufferStorage::Multisample {
                samples: s as i32,
                format,
                width: dim.0 as i32,
                height: dim.1 as i32,
            },
        ),
        AaMode::Coverage(_, _) => Err(()),
    }
}

/// The renderbuffer storage for a surface of the given sized format and
/// dimensions: multisampled when the dimensions ask for multisampling,
/// `Err(())` for coverage sampling.
pub fn surface_storage(format: u32, dim: Dimensions) -> (r: Result<RenderbufferStorage, ()>)
    ensures
        r == spec_surface_storage(format, dim),
{
    match dim.3 {
        AaMode::Single => Ok(
            RenderbufferStorage::Single { format, width: dim.0 as i32, height: dim.1 as i32 },
        ),
        AaMode::Multi(samples) => Ok(
            RenderbufferStorage::Multisample {
                samples: samples as i32,
                format,
                width: dim.0 as i32,
                height: dim.1 as i32,
            },
        ),
        AaMode::Coverage(_, _) => Err(()),
    }
}

/// The creation of a render surface for `desc` with channel type `cty`.
/// It fails before any call when the format has no sized OpenGL format, and
/// after the renderbuffer is generated and bound when the surface asks for
/// coverage sampling; both failures report the format.
pub fn make_surface_plan(desc: &Descriptor, cty: ChannelType) -> (r: Result<SurfacePlan, Error>)
    ensures
        r is Err <==> spec_glfull(Format(desc.format, cty)) is None,
        r matches Err(e) ==> e == Error::Format(desc.format, Some(cty)),
        r matches Ok(p) ==> {
            &&& Some(p.format) == spec_glfull(Format(desc.format, cty))
            &&& p.storage == match spec_surface_storage(
                p.format,
                spec_dimensions(desc.kind),
            ) {
                Ok(s) => Ok(s),
                Err(_) => Err(Error::Format(desc.format, Some(cty))),
            }
        },
{
    let format = Format(desc.format, cty);
    let format_error = Error::Format(desc.format, Some(cty));
    let fmt = match format_to_glfull(format) {
        Ok(f) => f,
        Err(_) => return Err(format_error),
    };
    let storage = match surface_storage(fmt, desc.kind.get_dimensions()) {
        Ok(s) => Ok(s),
        Err(_) => Err(format_error),
    };
    Ok(SurfacePlan { format: fmt, storage })
}

/// Whether `p` creates a texture of kind `kind` by the `TexImage*` calls of
/// `spec_image_calls`, followed by the mipmap range from 0 to `highest_level(levels)`, or
/// fails with the error of `spec_image_calls`.
pub open spec fn image_plan_matches(
    p: TexturePlan<Vec<TexImageCall>>,
    kind: Kind,
    format: i32,
    pix: u32,
    typ: u32,
    levels: u8,
    fixed: bool,
) -> bool {
    &&& p.target == spec_kind_to_gl(kind)
    &&& match (p.allocation, spec_image_calls(kind, format, pix, typ, fixed)) {
        (Ok(a), Ok(calls)) => a.calls@ == calls && a.base_level == 0 && a.max_level == highest_level(levels),
        (Err(e), Err(e2)) => e == e2,
        _ => false,
    }
}

/// Whether `p` creates a texture of kind `kind` by the `TexStorage*` call of
/// `spec_storage_call`, followed by the mipmap range from 0 to `highest_level(levels)`, or
/// fails with the error of `spec_storage_call`.
pub open spec fn storage_plan_matches(
    p: TexturePlan<StorageCall>,
    kind: Kind,
    format: u32,
    levels: u8,
    fixed: bool,
) -> bool {
    &&& p.target == spec_kind_to_gl(kind)
    &&& match (p.allocation, spec_storage_call(kind, format, levels, fixed)) {
        (Ok(a), Ok(call)) => a.calls == call && a.base_level == 0 && a.max_level == highest_level(levels),
        (Err(e), Err(e2)) => e == e2,
        _ => false,
    }
}

/// The target of the `i`-th cube face in allocation order.
fn cube_face_target(i: usize) -> (r: u32)
    requires
        i < 6,
    ensures
        r == cube_face_targets()[i as int],
{
    match i {
        0 => gl::TEXTURE_CUBE_MAP_POSITIVE_X,
        1 => gl::TEXTURE_CUBE_MAP_NEGATIVE_X,
        2 => gl::TEXTURE_CUBE_MAP_POSITIVE_Y,
        3 => gl::TEXTURE_CUBE_MAP_NEGATIVE_Y,
        4 => gl::TEXTURE_CUBE_MAP_POSITIVE_Z,
        _ => gl::TEXTURE_CUBE_MAP_NEGATIVE_Z,
    }
}

/// The creation of a texture of kind `kind` with `TexImage*` calls (no
/// immutable storage): one image per face for cubes, one image otherwise;
/// multisampled kinds get multisample images with the given fixed sample
/// locations. Cube arrays fail with `Error::Kind` and coverage sampling
/// with `Error::Samples`.
pub fn image_plan(
    kind: Kind,
    format: i32,
    pix: u32,
    typ: u32,
    levels: u8,
    fixed_sample_locations: bool,
) -> (r: TexturePlan<Vec<TexImageCall>>)
    ensures
        image_plan_matches(r, kind, format, pix, typ, levels, fixed_sample_locations),
{
    let target = kind_to_gl(kind);
    let fixed = if fixed_sample_locations { gl::TRUE } else { gl::FALSE };
    let mut calls: Vec<TexImageCall> = Vec::new();
    match kind {
        Kind::D1(w) => {
            calls.push(
                TexImageCall::Image1D {
                    target,
                    internal_format: format,
                    width: w as i32,
                    pixel_format: pix,
                    data_type: typ,
                },
            );
        },
        Kind::D1Array(w, a) => {
            calls.push(
                TexImageCall::Image2D {
                    target,
                    internal_format: format,
                    width: w as i32,
                    height: a as i32,
                    pixel_format: pix,
                    data_type: typ,
                },
            );
        },
        Kind::D2(w, h, AaMode::Single) => {
            calls.push(
                TexImageCall::Image2D {
                    target,
                    internal_format: format,
                    width: w as i32,
                    height: h as i32,
                    pixel_format: pix,
                    data_type: typ,
                },
            );
        },
        Kind::D2(w, h, AaMode::Multi(samples)) => {
            calls.push(
                TexImageCall::Image2DMultisample {
                    target,
                    samples: samples as i32,
                    internal_format: format as u32,
                    width: w as i32,
                    height: h as i32,
                    fixed_sample_locations: fixed,
                },
            );
        },
        Kind::D2Array(w, h, a, AaMode::Single) => {
            calls.push(
                TexImageCall::Image3D {
                    target,
                    internal_format: format,
                    width: w as i32,
                    height: h as i32,
                    depth: a as i32,
                    pixel_format: pix,
                    data_type: typ,
                },
            );
        },
        Kind::D2Array(w, h, a, AaMode::Multi(samples)) => {
            calls.push(
                TexImageCall::Image3DMultisample {
                    target,
                    samples: samples as i32,
                    internal_format: format as u32,
                    width: w as i32,
                    height: h as i32,
                    depth: a as i32,
                    fixed_sample_locations: fixed,
                },
            );
        },
        Kind::D3(w, h, d) => {
            calls.push(
                TexImageCall::Image3D {
                    target,
                    internal_format: format,
                    width: w as i32,
                    height: h as i32,
                    depth: d as i32,
                    pixel_format: pix,
                    data_type: typ,
                },
            );
        },
        Kind::Cube(w, h) => {
            let ghost image = |t: u32| cube_face_image(t, format, w, h, pix, typ);
            let mut i: usize = 0;
            while i < 6
                invariant
                    i <= 6,
                    calls@ == cube_face_targets().take(i as int).map_values(image),
                    image == (|t: u32| cube_face_image(t, format, w, h, pix, typ)),
                decreases 6 - i,
            {
                let face_target = cube_face_target(i);
                calls.push(
                    TexImageCall::Image2D {
                        target: face_target,
                        internal_format: format,
                        width: w as i32,
                        height: h as i32,
                        pixel_format: pix,
                        data_type: typ,
                    },
                );
                proof {
                    let prefix = cube_face_targets().take(i as int);
                    assert(cube_face_targets().take(i + 1) =~= prefix.push(face_target));
                    assert(prefix.push(face_target).map_values(image) =~= prefix.map_values(
                        image,
                    ).push(image(face_target)));
                }
                i = i + 1;
            }
            proof {
                assert(cube_face_targets().take(6) =~= cube_face_targets());
            }
        },
        Kind::CubeArray(_, _, _) => {
            return TexturePlan { target, allocation: Err(Error::Kind) };
        },
        Kind::D2(_, _, aa) => {
            return TexturePlan { target, allocation: Err(Error::Samples(aa)) };
        },
        Kind::D2Array(_, _, _, aa) => {
            return TexturePlan { target, allocation: Err(Error::Samples(aa)) };
        },
    }
    TexturePlan {
        target,
        allocation: Ok(Allocation { calls, base_level: 0, max_level: highest_level_of(levels) }),
    }
}

/// The creation of a texture of kind `kind` with one `TexStorage*` call:
/// the number of levels is `levels` capped by the length of a full mipmap
/// chain; multisampled kinds get multisample storage with the given fixed
/// sample locations. Cubes and cube arrays fail with `Error::Kind` and
/// coverage sampling with `Error::Samples`.
pub fn storage_plan(kind: Kind, format: u32, levels: u8, fixed_sample_locations: bool) -> (r:
    TexturePlan<StorageCall>)
    ensures
        storage_plan_matches(r, kind, format, levels, fixed_sample_locations),
{
    let target = kind_to_gl(kind);
    let fixed = if fixed_sample_locations { gl::TRUE } else { gl::FALSE };
    let call = match kind {
        Kind::D1(w) => StorageCall::Storage1D {
            target,
            levels: min_levels(levels, mip_level1(w)),
            internal_format: format,
            width: w as i32,
        },
        Kind::D1Array(w, a) => StorageCall::Storage2D {
            target,
            levels: min_levels(levels, mip_level1(w)),
            internal_format: format,
            width: w as i32,
            height: a as i32,
        },
        Kind::D2(w, h, AaMode::Single) => StorageCall::Storage2D {
            target,
            levels: min_levels(levels, mip_level2(w, h)),
            internal_format: format,
            width: w as i32,
            height: h as i32,
        },
        Kind::D2Array(w, h, a, AaMode::Single) => StorageCall::Storage3D {
            target,
            levels: min_levels(levels, mip_level2(w, h)),
            internal_format: format,
            width: w as i32,
            height: h as i32,
            depth: a as i32,
        },
        Kind::D2(w, h, AaMode::Multi(samples)) => StorageCall::Storage2DMultisample {
            target,
            samples: samples as i32,
            internal_format: format,
            width: w as i32,
            height: h as i32,
            fixed_sample_locations: fixed,
        },
        Kind::D2Array(w, h, a, AaMode::Multi(samples)) => StorageCall::Storage3DMultisample {
            target,
            samples: samples as i32,
            internal_format: format,
            width: w as i32,
            height: h as i32,
            depth: a as i32,
            fixed_sample_locations: fixed,
        },
        Kind::D3(w, h, d) => StorageCall::Storage3D {
            target,
            levels: min_levels(levels, mip_level3(w, h, d)),
            internal_format: format,
            width: w as i32,
            height: h as i32,
            depth: d as i32,
        },
        Kind::Cube(..) | Kind::CubeArray(..) => {
            return TexturePlan { target, allocation: Err(Error::Kind) };
        },
        Kind::D2(_, _, aa) => {
            return TexturePlan { target, allocation: Err(Error::Samples(aa)) };
        },
        Kind::D2Array(_, _, _, aa) => {
            return TexturePlan { target, allocation: Err(Error::Samples(aa)) };
        },
    };
    TexturePlan {
        target,
        allocation: Ok(Allocation { calls: call, base_level: 0, max_level: highest_level_of(levels) }),
    }
}

/// The creation of a texture for `desc` with channel type `cty` when
/// immutable storage is not available. It fails with `Error::Format` before
/// any call when the format has no sized OpenGL format or no pixel data
/// type; otherwise it is the plan of `image_plan` for the sized format, the
/// pixel format and data type of the format, and fixed sample locations
/// exactly when the texture is bound as a shader resource.
pub fn make_without_storage_plan(desc: &Descriptor, cty: ChannelType) -> (r: Result<
    TexturePlan<Vec<TexImageCall>>,
    Error,
>)
    ensures
        ({
            let f = Format(desc.format, cty);
            &&& r is Err <==> (spec_glfull(f) is None || spec_gltype(f) is None)
            &&& r matches Err(e) ==> e == Error::Format(desc.format, Some(cty))
            &&& r matches Ok(p) ==> image_plan_matches(
                p,
                desc.kind,
                spec_glfull(f)->0 as i32,
                spec_glpixel(desc.format),
                spec_gltype(f)->0,
                desc.levels,
                desc.bind & SHADER_RESOURCE == SHADER_RESOURCE,
            )
        }),
{
    let format = Format(desc.format, cty);
    let gl_format = match format_to_glfull(format) {
        Ok(f) => f as i32,
        Err(_) => return Err(Error::Format(desc.format, Some(cty))),
    };
    let gl_pixel_format = format_to_glpixel(format);
    let gl_data_type = match format_to_gltype(format) {
        Ok(t) => t,
        Err(_) => return Err(Error::Format(desc.format, Some(cty))),
    };
    let fixed_loc = desc.is_shader_resource();
    Ok(image_plan(desc.kind, gl_format, gl_pixel_format, gl_data_type, desc.levels, fixed_loc))
}

/// The creation of a texture for `desc` with channel type `cty` when
/// immutable storage is available. It fails with `Error::Format` before any
/// call when the format has no sized OpenGL format; otherwise it is the plan
/// of `storage_plan` for the sized format, with fixed sample locations
/// exactly when the texture is bound as a shader resource.
pub fn make_with_storage_plan(desc: &Descriptor, cty: ChannelType) -> (r: Result<
    TexturePlan<StorageCall>,
    Error,
>)
    ensures
        r is Err <==> spec_glfull(Format(desc.format, cty)) is None,
        r matches Err(e) ==> e == Error::Format(desc.format, Some(cty)),
        r matches Ok(p) ==> storage_plan_matches(
            p,
            desc.kind,
            spec_glfull(Format(desc.format, cty))->0,
            desc.levels,
            desc.bind & SHADER_RESOURCE == SHADER_RESOURCE,
        ),
{
    let format = Format(desc.format, cty);
    let gl_format = match format_to_glfull(format) {
        Ok(f) => f,
        Err(_) => return Err(Error::Format(desc.format, Some(cty))),
    };
    let fixed_loc = desc.is_shader_resource();
    Ok(storage_plan(desc.kind, gl_format, desc.levels, fixed_loc))
}

} // verus!
