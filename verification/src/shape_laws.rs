//! Properties of the extents, level counts and regions that texture
//! creation and upload hand to OpenGL, stated against the dimensions of the
//! texture kind and the region asked for.

use vstd::prelude::*;
use crate::creation::{
    cube_face_image, cube_face_targets, gl_bool, spec_image_calls, spec_storage_call,
    spec_surface_storage, RenderbufferStorage, StorageCall, TexImageCall,
};
use crate::mip::{bit_len, lemma_bit_len_monotone, max3};
use crate::tex::{spec_dimensions, spec_kind_to_gl, AaMode, Dimensions, ImageInfo, Kind};
use crate::upload::{spec_sub_image, SubImageCall};

verus! {

/// The extent a texture of this kind has along each of its axes, taken
/// from its dimensions: the width of rows; the width and the layer count
/// of row arrays; width and height of 2D images and cube faces; width,
/// height and layer count (or depth) of 2D arrays, volumes and cube arrays.
pub open spec fn kind_extent(kind: Kind) -> Seq<int> {
    let (w, h, d, _) = spec_dimensions(kind);
    match kind {
        Kind::D1(_) => seq![w as int],
        Kind::D1Array(_, _) => seq![w as int, d as int],
        Kind::D2(_, _, _) | Kind::Cube(_, _) => seq![w as int, h as int],
        _ => seq![w as int, h as int, d as int],
    }
}

/// The extent an image allocation allocates along each of its axes.
pub open spec fn image_extent(call: TexImageCall) -> Seq<int> {
    match call {
        TexImageCall::Image1D { width, .. } => seq![width as int],
        TexImageCall::Image2D { width, height, .. } => seq![width as int, height as int],
        TexImageCall::Image3D { width, height, depth, .. } => seq![
            width as int,
            height as int,
            depth as int,
        ],
        TexImageCall::Image2DMultisample { width, height, .. } => seq![width as int, height as int],
        TexImageCall::Image3DMultisample { width, height, depth, .. } => seq![
            width as int,
            height as int,
            depth as int,
        ],
    }
}

/// The extent a storage allocation allocates along each of its axes.
pub open spec fn storage_extent(call: StorageCall) -> Seq<int> {
    match call {
        StorageCall::Storage1D { width, .. } => seq![width as int],
        StorageCall::Storage2D { width, height, .. } => seq![width as int, height as int],
        StorageCall::Storage3D { width, height, depth, .. } => seq![
            width as int,
            height as int,
            depth as int,
        ],
        StorageCall::Storage2DMultisample { width, height, .. } => seq![width as int, height as int],
        StorageCall::Storage3DMultisample { width, height, depth, .. } => seq![
            width as int,
            height as int,
            depth as int,
        ],
    }
}

/// Every image that creates a texture without immutable storage has the
/// extent of the texture: for each axis of the kind, the size its
/// dimensions give (every face of a cube included).
pub proof fn law_images_have_the_kind_extent(
    kind: Kind,
    format: i32,
    pix: u32,
    typ: u32,
    fixed: bool,
)
    ensures
        spec_image_calls(kind, format, pix, typ, fixed) matches Ok(calls) ==> forall|i: int|
            0 <= i < calls.len() ==> image_extent(#[trigger] calls[i]) == kind_extent(kind),
{
    if let Ok(calls) = spec_image_calls(kind, format, pix, typ, fixed) {
        assert forall|i: int| 0 <= i < calls.len() implies image_extent(#[trigger] calls[i])
            == kind_extent(kind) by {
            assert(image_extent(calls[i]) =~= kind_extent(kind));
        }
    }
}

/// Immutable storage has the extent of the texture: for each axis of the
/// kind, the size its dimensions give.
pub proof fn law_storage_has_the_kind_extent(kind: Kind, format: u32, levels: u8, fixed: bool)
    ensures
        spec_storage_call(kind, format, levels, fixed) matches Ok(call) ==> storage_extent(call)
            == kind_extent(kind),
{
    if let Ok(call) = spec_storage_call(kind, format, levels, fixed) {
        assert(storage_extent(call) =~= kind_extent(kind));
    }
}

/// The number of levels that `levels` requested levels give for a side of
/// `side` texels: no more than requested, no more than a full chain has.
pub open spec fn capped_levels(levels: u8, side: int) -> int {
    if levels as int <= bit_len(side as nat) {
        levels as int
    } else {
        bit_len(side as nat) as int
    }
}

/// The level count of an immutable storage allocation, where it has one.
pub open spec fn storage_level_count(call: StorageCall) -> Option<i32> {
    match call {
        StorageCall::Storage1D { levels, .. } => Some(levels),
        StorageCall::Storage2D { levels, .. } => Some(levels),
        StorageCall::Storage3D { levels, .. } => Some(levels),
        _ => None,
    }
}

/// The largest of three sizes is at least each of them and is one of them.
pub proof fn law_max3_is_the_largest_side(w: u16, h: u16, d: u16)
    ensures
        max3(w, h, d) >= w,
        max3(w, h, d) >= h,
        max3(w, h, d) >= d,
        max3(w, h, d) == w || max3(w, h, d) == h || max3(w, h, d) == d,
{
}

/// The level count of immutable storage is the requested count, capped by
/// the full chain of the largest mipmapped side: it is at least the capped
/// count of the width, of the height for 2D kinds and volumes, and of the
/// depth for volumes; it is the capped count of one of those sides. The
/// layers of arrays do not count.
pub proof fn law_storage_levels_follow_the_largest_side(
    kind: Kind,
    format: u32,
    levels: u8,
    fixed: bool,
)
    ensures
        spec_storage_call(kind, format, levels, fixed) matches Ok(call) ==> (storage_level_count(
            call,
        ) matches Some(l) ==> {
            let (w, h, d, _) = spec_dimensions(kind);
            let with_height = kind is D2 || kind is D2Array || kind is D3;
            &&& l <= levels
            &&& l >= capped_levels(levels, w as int)
            &&& with_height ==> l >= capped_levels(levels, h as int)
            &&& kind is D3 ==> l >= capped_levels(levels, d as int)
            &&& (l == capped_levels(levels, w as int) || (with_height && l == capped_levels(
                levels,
                h as int,
            )) || (kind is D3 && l == capped_levels(levels, d as int)))
        }),
{
    if let Ok(call) = spec_storage_call(kind, format, levels, fixed) {
        if let Some(l) = storage_level_count(call) {
            match kind {
                Kind::D2(w, h, _) | Kind::D2Array(w, h, _, _) => {
                    lemma_bit_len_monotone(w as nat, if w >= h { w as nat } else { h as nat });
                    lemma_bit_len_monotone(h as nat, if w >= h { w as nat } else { h as nat });
                },
                Kind::D3(w, h, d) => {
                    law_max3_is_the_largest_side(w, h, d);
                    lemma_bit_len_monotone(w as nat, max3(w, h, d) as nat);
                    lemma_bit_len_monotone(h as nat, max3(w, h, d) as nat);
                    lemma_bit_len_monotone(d as nat, max3(w, h, d) as nat);
                },
                _ => {},
            }
        }
    }
}

/// An upload writes the region asked for: its level is the region's mipmap
/// level, and its offsets and sizes are the region's along each axis of the
/// call (x for rows; x and y for row arrays, 2D images and cube faces; x,
/// y and z for 2D arrays and volumes), through the given target, with the
/// given pixel format and data type.
pub proof fn law_upload_writes_the_region(
    kind: Kind,
    target: u32,
    pix: u32,
    typ: u32,
    img: ImageInfo,
)
    ensures
        spec_sub_image(kind, target, pix, typ, img) matches Ok(call) ==> match call {
            SubImageCall::SubImage1D {
                target: t,
                level,
                xoffset,
                width,
                pixel_format,
                data_type,
            } => {
                &&& kind is D1
                &&& t == target && pixel_format == pix && data_type == typ
                &&& level == img.mipmap && xoffset == img.xoffset && width == img.width
            },
            SubImageCall::SubImage2D {
                target: t,
                level,
                xoffset,
                yoffset,
                width,
                height,
                pixel_format,
                data_type,
            } => {
                &&& (kind is D1Array || kind is D2 || kind is Cube)
                &&& t == target && pixel_format == pix && data_type == typ
                &&& level == img.mipmap && xoffset == img.xoffset && yoffset == img.yoffset
                &&& width == img.width && height == img.height
            },
            SubImageCall::SubImage3D {
                target: t,
                level,
                xoffset,
                yoffset,
                zoffset,
                width,
                height,
                depth,
                pixel_format,
                data_type,
            } => {
                &&& (kind is D2Array || kind is D3)
                &&& t == target && pixel_format == pix && data_type == typ
                &&& level == img.mipmap && xoffset == img.xoffset && yoffset == img.yoffset
                    && zoffset == img.zoffset
                &&& width == img.width && height == img.height && depth == img.depth
            },
        },
{
}

/// The number of samples per texel a kind asks for, where it asks for
/// multisampling.
pub open spec fn kind_samples(kind: Kind) -> Option<u8> {
    match spec_dimensions(kind).3 {
        AaMode::Multi(n) => Some(n),
        _ => None,
    }
}

/// What an image allocation hands to OpenGL besides its extent: its target,
/// its sample count and fixed-sample-location flag when it is multisampled,
/// and otherwise its internal format, pixel format and data type.
pub open spec fn image_setup(call: TexImageCall) -> (u32, Option<(i32, u8)>, Option<(i32, u32, u32)>) {
    match call {
        TexImageCall::Image1D { target, internal_format, pixel_format, data_type, .. } => (
            target,
            None,
            Some((internal_format, pixel_format, data_type)),
        ),
        TexImageCall::Image2D { target, internal_format, pixel_format, data_type, .. } => (
            target,
            None,
            Some((internal_format, pixel_format, data_type)),
        ),
        TexImageCall::Image3D { target, internal_format, pixel_format, data_type, .. } => (
            target,
            None,
            Some((internal_format, pixel_format, data_type)),
        ),
        TexImageCall::Image2DMultisample { target, samples, fixed_sample_locations, .. } => (
            target,
            Some((samples, fixed_sample_locations)),
            None,
        ),
        TexImageCall::Image3DMultisample { target, samples, fixed_sample_locations, .. } => (
            target,
            Some((samples, fixed_sample_locations)),
            None,
        ),
    }
}

/// The internal format of a multisample image allocation.
pub open spec fn multisample_image_format(call: TexImageCall) -> Option<u32> {
    match call {
        TexImageCall::Image2DMultisample { internal_format, .. } => Some(internal_format),
        TexImageCall::Image3DMultisample { internal_format, .. } => Some(internal_format),
        _ => None,
    }
}

/// The images of a texture created without immutable storage go through
/// the texture's target (cube faces through their face targets); they are
/// multisampled exactly when the kind asks for multisampling, with its
/// sample count and the requested fixed sample locations; all others carry
/// the given internal format, pixel format and data type.
pub proof fn law_images_carry_the_requested_setup(
    kind: Kind,
    format: i32,
    pix: u32,
    typ: u32,
    fixed: bool,
)
    ensures
        spec_image_calls(kind, format, pix, typ, fixed) matches Ok(calls) ==> forall|i: int|
            0 <= i < calls.len() ==> {
                let (target, ms, plain) = image_setup(#[trigger] calls[i]);
                &&& !(kind is Cube) ==> target == spec_kind_to_gl(kind)
                &&& match kind_samples(kind) {
                    Some(n) => ms == Some((n as i32, gl_bool(fixed))) && plain is None
                        && multisample_image_format(calls[i]) == Some(format as u32),
                    None => ms is None && plain == Some((format, pix, typ)),
                }
            },
{
    if let Ok(calls) = spec_image_calls(kind, format, pix, typ, fixed) {
        assert forall|i: int| 0 <= i < calls.len() implies {
            let (target, ms, plain) = image_setup(#[trigger] calls[i]);
            &&& !(kind is Cube) ==> target == spec_kind_to_gl(kind)
            &&& match kind_samples(kind) {
                Some(n) => ms == Some((n as i32, gl_bool(fixed))) && plain is None
                    && multisample_image_format(calls[i]) == Some(format as u32),
                None => ms is None && plain == Some((format, pix, typ)),
            }
        } by {
            if let Kind::Cube(w, h) = kind {
                assert(calls[i] == cube_face_image(cube_face_targets()[i], format, w, h, pix, typ));
            }
        }
    }
}

/// What an immutable storage allocation hands to OpenGL besides its extent
/// and level count: its target, internal format, and its sample count and
/// fixed-sample-location flag when it is multisampled.
pub open spec fn storage_setup(call: StorageCall) -> (u32, u32, Option<(i32, u8)>) {
    match call {
        StorageCall::Storage1D { target, internal_format, .. } => (target, internal_format, None),
        StorageCall::Storage2D { target, internal_format, .. } => (target, internal_format, None),
        StorageCall::Storage3D { target, internal_format, .. } => (target, internal_format, None),
        StorageCall::Storage2DMultisample {
            target,
            internal_format,
            samples,
            fixed_sample_locations,
            ..
        } => (target, internal_format, Some((samples, fixed_sample_locations))),
        StorageCall::Storage3DMultisample {
            target,
            internal_format,
            samples,
            fixed_sample_locations,
            ..
        } => (target, internal_format, Some((samples, fixed_sample_locations))),
    }
}

/// Immutable storage goes through the texture's target with the given
/// internal format; it is multisampled exactly when the kind asks for
/// multisampling, with its sample count and the requested fixed sample
/// locations, and only then has no level count.
pub proof fn law_storage_carries_the_requested_setup(
    kind: Kind,
    format: u32,
    levels: u8,
    fixed: bool,
)
    ensures
        spec_storage_call(kind, format, levels, fixed) matches Ok(call) ==> {
            let (target, internal_format, ms) = storage_setup(call);
            &&& target == spec_kind_to_gl(kind)
            &&& internal_format == format
            &&& ms == match kind_samples(kind) {
                Some(n) => Some((n as i32, gl_bool(fixed))),
                None => None,
            }
            &&& storage_level_count(call) is Some <==> kind_samples(kind) is None
        },
{
}

/// A render surface gets storage of the width and height of its dimensions
/// and the given format, multisampled exactly when the dimensions ask for
/// multisampling, with their sample count.
pub proof fn law_surface_storage_has_the_dimensions(format: u32, dim: Dimensions)
    ensures
        spec_surface_storage(format, dim) matches Ok(s) ==> match s {
            RenderbufferStorage::Single { format: f, width, height } => {
                &&& dim.3 == AaMode::Single
                &&& f == format && width == dim.0 && height == dim.1
            },
            RenderbufferStorage::Multisample { samples, format: f, width, height } => {
                &&& dim.3 == AaMode::Multi(samples as u8)
                &&& 0 <= samples < 256
                &&& f == format && width == dim.0 && height == dim.1
            },
        },
        spec_surface_storage(format, dim) is Err <==> dim.3 is Coverage,
{
}

} // verus!
