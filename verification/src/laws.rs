//! Properties that relate the functions of the library to one another.

use vstd::prelude::*;
use vstd::arithmetic::power2::pow2;
use crate::buffer::has_slot;
use crate::creation::{
    cube_face_image, cube_face_targets, image_kind_supported, spec_image_calls, spec_storage_call,
    storage_kind_supported, StorageCall, TexImageCall,
};
use crate::glenum as gl;
use crate::mip::{bit_len, lemma_bit_len_bounds, max3};
use crate::sampler::{enum_param, spec_sampler_params, ParamValue};
use crate::tex::{
    spec_cube_face_to_gl, spec_filter_to_gl, spec_kind_face_to_gl, spec_kind_to_gl,
    spec_map_comparison, spec_wrap_to_gl, CubeFace, FilterMethod, Kind, SamplerInfo,
};

verus! {

/// Distinct cube faces are addressed through distinct targets.
pub proof fn law_cube_face_targets_distinct(f1: CubeFace, f2: CubeFace)
    requires
        f1 != f2,
    ensures
        spec_cube_face_to_gl(f1) != spec_cube_face_to_gl(f2),
{
}

/// The target an image allocation addresses.
pub open spec fn image_target(call: TexImageCall) -> u32 {
    match call {
        TexImageCall::Image1D { target, .. } => target,
        TexImageCall::Image2D { target, .. } => target,
        TexImageCall::Image3D { target, .. } => target,
        TexImageCall::Image2DMultisample { target, .. } => target,
        TexImageCall::Image3DMultisample { target, .. } => target,
    }
}

/// The position of a face's image among the images of a cube.
pub open spec fn face_index(f: CubeFace) -> int {
    match f {
        CubeFace::PosX => 0,
        CubeFace::NegX => 1,
        CubeFace::PosY => 2,
        CubeFace::NegY => 3,
        CubeFace::PosZ => 4,
        CubeFace::NegZ => 5,
    }
}

/// The face whose image comes at position `i` among the images of a cube.
pub open spec fn face_at(i: int) -> CubeFace {
    if i == 0 {
        CubeFace::PosX
    } else if i == 1 {
        CubeFace::NegX
    } else if i == 2 {
        CubeFace::PosY
    } else if i == 3 {
        CubeFace::NegY
    } else if i == 4 {
        CubeFace::PosZ
    } else {
        CubeFace::NegZ
    }
}

/// A cube texture created without immutable storage gets six 2D images,
/// one for each face, each through the very target by which an update
/// addresses that face: the image at position `face_index(f)` is that of
/// face `f`, and the image at position `i` that of face `face_at(i)`.
pub proof fn law_cube_images_cover_every_face(
    w: u16,
    h: u16,
    format: i32,
    pix: u32,
    typ: u32,
    fixed: bool,
)
    ensures
        spec_image_calls(Kind::Cube(w, h), format, pix, typ, fixed) matches Ok(calls) && {
            &&& calls.len() == 6
            &&& forall|i: int| 0 <= i < 6 ==> #[trigger] calls[i] is Image2D
            &&& forall|f: CubeFace|
                0 <= #[trigger] face_index(f) < 6 && image_target(calls[face_index(f)])
                    == spec_kind_face_to_gl(Kind::Cube(w, h), Some(f))
            &&& forall|i: int|
                0 <= i < 6 ==> face_index(face_at(i)) == i && #[trigger] image_target(calls[i])
                    == spec_cube_face_to_gl(face_at(i))
        },
{
    let calls = spec_image_calls(Kind::Cube(w, h), format, pix, typ, fixed)->Ok_0;
    assert(calls.len() == 6);
    assert forall|i: int| 0 <= i < 6 implies #[trigger] calls[i] is Image2D
        && image_target(calls[i]) == cube_face_targets()[i] by {
        assert(calls[i] == cube_face_image(cube_face_targets()[i], format, w, h, pix, typ));
    }
}

/// Without a cube face, an update goes through the target the texture was
/// created on.
pub proof fn law_update_without_face_uses_creation_target(kind: Kind)
    ensures
        spec_kind_face_to_gl(kind, None) == spec_kind_to_gl(kind),
{
}

/// The kinds that can be allocated with immutable storage are those that
/// can be allocated without it, but for cubes; whenever the allocation
/// without immutable storage fails, the allocation with it fails with the
/// same error.
pub proof fn law_storage_kinds_within_image_kinds(
    kind: Kind,
    image_format: i32,
    storage_format: u32,
    pix: u32,
    typ: u32,
    levels: u8,
    fixed: bool,
)
    ensures
        storage_kind_supported(kind) <==> (image_kind_supported(kind) && !(kind is Cube)),
        spec_image_calls(kind, image_format, pix, typ, fixed) matches Err(e) ==> spec_storage_call(
            kind,
            storage_format,
            levels,
            fixed,
        ) == Err::<StorageCall, _>(e),
{
}

/// The largest side of the texels of a kind, as far as mipmaps go: the
/// width of rows, the larger side of 2D images, the largest side of
/// volumes; 0 for cubes, which get no immutable storage.
pub open spec fn mip_extent(kind: Kind) -> nat {
    match kind {
        Kind::D1(w) | Kind::D1Array(w, _) => w as nat,
        Kind::D2(w, h, _) | Kind::D2Array(w, h, _, _) => if w >= h { w as nat } else { h as nat },
        Kind::D3(w, h, d) => max3(w, h, d) as nat,
        _ => 0,
    }
}

/// The number of levels an immutable storage allocation asks for; `None`
/// for multisample storage, which has a single level.
pub open spec fn storage_levels(call: StorageCall) -> Option<i32> {
    match call {
        StorageCall::Storage1D { levels, .. } => Some(levels),
        StorageCall::Storage2D { levels, .. } => Some(levels),
        StorageCall::Storage3D { levels, .. } => Some(levels),
        _ => None,
    }
}

/// Immutable storage never asks for more levels than were requested, nor
/// for more than a full mipmap chain of the largest side has: with `l`
/// levels, `2^(l-1)` does not exceed that side. When at least one level is
/// requested and the texture is not empty, at least one level is
/// allocated.
pub proof fn law_storage_levels_capped(kind: Kind, format: u32, levels: u8, fixed: bool)
    ensures
        spec_storage_call(kind, format, levels, fixed) matches Ok(call) ==> (
        storage_levels(call) matches Some(l) ==> {
            &&& l <= levels
            &&& l <= bit_len(mip_extent(kind))
            &&& l >= 1 ==> pow2((l - 1) as nat) <= mip_extent(kind)
            &&& (levels >= 1 && mip_extent(kind) >= 1) ==> l >= 1
        }),
{
    let n = mip_extent(kind);
    if let Ok(call) = spec_storage_call(kind, format, levels, fixed) {
        if let Some(l) = storage_levels(call) {
            let b = bit_len(n);
            assert(l == (if levels as nat <= b { levels as i32 } else { b as i32 }));
            if l >= 1 {
                if n == 0 {
                    assert(b == 0);
                }
                lemma_bit_len_bounds(n);
                lemma_pow2_le((l - 1) as nat, (b - 1) as nat);
            }
            if levels >= 1 && n >= 1 {
                lemma_bit_len_bounds(n);
            }
        }
    }
}

/// `2^a <= 2^b` whenever `a <= b`.
proof fn lemma_pow2_le(a: nat, b: nat)
    requires
        a <= b,
    ensures
        pow2(a) <= pow2(b),
{
    if a < b {
        vstd::arithmetic::power2::lemma_pow2_strictly_increases(a, b);
    }
}

/// The sampling parameters always set both filters and all three wrap
/// modes; the magnification filter never uses mipmaps; the maximum
/// anisotropy is set exactly for anisotropic filtering, and the comparison
/// function exactly when the sampler compares.
pub proof fn law_sampler_params_shape(info: SamplerInfo)
    ensures
        ({
            let params = spec_sampler_params(info);
            let aniso: int = if info.filtering is Anisotropic { 1 } else { 0 };
            &&& params.len() == 9 + aniso + (if info.comparison is Some { 1int } else { 0 })
            &&& params[aniso] == enum_param(gl::TEXTURE_MIN_FILTER, spec_filter_to_gl(info.filtering).0)
            &&& params[aniso + 1] == enum_param(gl::TEXTURE_MAG_FILTER, spec_filter_to_gl(info.filtering).1)
            &&& (spec_filter_to_gl(info.filtering).1 == gl::NEAREST || spec_filter_to_gl(
                info.filtering,
            ).1 == gl::LINEAR)
            &&& (exists|i: int| 0 <= i < params.len() && #[trigger] params[i].pname
                == gl::TEXTURE_MAX_ANISOTROPY_EXT) <==> info.filtering is Anisotropic
            &&& (exists|i: int| 0 <= i < params.len() && #[trigger] params[i].pname
                == gl::TEXTURE_COMPARE_FUNC) <==> info.comparison is Some
        }),
{
    let params = spec_sampler_params(info);
    let aniso: int = if info.filtering is Anisotropic { 1 } else { 0 };
    assert(params.len() == 9 + aniso + (if info.comparison is Some { 1int } else { 0 }));
    if info.filtering is Anisotropic {
        assert(params[0].pname == gl::TEXTURE_MAX_ANISOTROPY_EXT);
    } else {
        assert forall|i: int| 0 <= i < params.len() implies #[trigger] params[i].pname
            != gl::TEXTURE_MAX_ANISOTROPY_EXT by {}
    }
    if info.comparison is Some {
        assert(params[params.len() - 1].pname == gl::TEXTURE_COMPARE_FUNC);
    } else {
        assert forall|i: int| 0 <= i < params.len() implies #[trigger] params[i].pname
            != gl::TEXTURE_COMPARE_FUNC by {}
    }
}

/// A fresh buffer link binds no slot.
pub proof fn law_new_link_binds_nothing(i: nat)
    requires
        i < usize::BITS,
    ensures
        !has_slot(0usize, i),
{
    let s = i as usize;
    assert(0usize & (1usize << s) == 0) by (bit_vector);
}

/// Linking an attribute at slot `s` makes the link active and binds the
/// buffer at `s`, and leaves every other slot bound as it was.
pub proof fn law_link_binds_slot(mask: usize, s: nat, i: nat)
    requires
        s < usize::BITS,
        i < usize::BITS,
    ensures
        (mask | (1usize << (s as usize))) != 0,
        has_slot(mask | (1usize << (s as usize)), s),
        i != s ==> has_slot(mask | (1usize << (s as usize)), i) == has_slot(mask, i),
{
    let su = s as usize;
    let iu = i as usize;
    assert((mask | (1usize << su)) != 0) by (bit_vector)
        requires
            su < usize::BITS,
    ;
    assert((mask | (1usize << su)) & (1usize << su) != 0) by (bit_vector)
        requires
            su < usize::BITS,
    ;
    assert(iu != su ==> (((mask | (1usize << su)) & (1usize << iu) != 0) == (mask & (1usize
        << iu) != 0))) by (bit_vector)
        requires
            su < usize::BITS,
            iu < usize::BITS,
    ;
}

/// The slot set after the slots `slots` are linked in turn, starting from
/// the set `mask`: each link ors in the bit of its slot.
pub open spec fn linked_after(mask: usize, slots: Seq<nat>) -> usize
    decreases slots.len(),
{
    if slots.len() == 0 {
        mask
    } else {
        linked_after(mask, slots.drop_last()) | (1usize << (slots.last() as usize))
    }
}

/// Successive links only ever add slots: after the slots `slots` are
/// linked in turn, starting from `mask`, a slot is linked exactly when it
/// was linked before or is one of `slots`. Starting from a fresh link, the
/// link is active exactly when some slot was linked.
pub proof fn law_successive_links(mask: usize, slots: Seq<nat>, i: nat)
    requires
        forall|k: int| 0 <= k < slots.len() ==> #[trigger] slots[k] < usize::BITS,
        i < usize::BITS,
    ensures
        has_slot(linked_after(mask, slots), i) <==> (has_slot(mask, i) || slots.contains(i)),
        mask == 0 ==> (linked_after(mask, slots) != 0 <==> slots.len() > 0),
    decreases slots.len(),
{
    if slots.len() == 0 {
    } else {
        let prefix = slots.drop_last();
        let s = slots.last();
        assert(s == slots[slots.len() - 1]);
        law_successive_links(mask, prefix, i);
        law_link_binds_slot(linked_after(mask, prefix), s, i);
        if i == s {
            assert(slots.contains(i));
        } else {
            assert(slots.contains(i) <==> prefix.contains(i)) by {
                if slots.contains(i) {
                    let k = choose|k: int| 0 <= k < slots.len() && slots[k] == i;
                    assert(prefix[k] == i);
                }
                if prefix.contains(i) {
                    let k = choose|k: int| 0 <= k < prefix.len() && prefix[k] == i;
                    assert(slots[k] == i);
                }
            }
        }
    }
}

/// The value the sampling parameter `pname` is to have for the sampler
/// description `info`, where it is set at all.
pub open spec fn expected_param(info: SamplerInfo, pname: u32) -> Option<ParamValue> {
    let (min, mag) = spec_filter_to_gl(info.filtering);
    if pname == gl::TEXTURE_MAX_ANISOTROPY_EXT {
        match info.filtering {
            FilterMethod::Anisotropic(fac) => Some(ParamValue::Anisotropy(fac)),
            _ => None,
        }
    } else if pname == gl::TEXTURE_MIN_FILTER {
        Some(ParamValue::Int(min as i32))
    } else if pname == gl::TEXTURE_MAG_FILTER {
        Some(ParamValue::Int(mag as i32))
    } else if pname == gl::TEXTURE_WRAP_S {
        Some(ParamValue::Int(spec_wrap_to_gl(info.wrap_mode.0) as i32))
    } else if pname == gl::TEXTURE_WRAP_T {
        Some(ParamValue::Int(spec_wrap_to_gl(info.wrap_mode.1) as i32))
    } else if pname == gl::TEXTURE_WRAP_R {
        Some(ParamValue::Int(spec_wrap_to_gl(info.wrap_mode.2) as i32))
    } else if pname == gl::TEXTURE_LOD_BIAS {
        Some(ParamValue::LevelOfDetail(info.lod_bias))
    } else if pname == gl::TEXTURE_MIN_LOD {
        Some(ParamValue::LevelOfDetail(info.lod_range.0))
    } else if pname == gl::TEXTURE_MAX_LOD {
        Some(ParamValue::LevelOfDetail(info.lod_range.1))
    } else if pname == gl::TEXTURE_COMPARE_MODE {
        Some(
            ParamValue::Int(
                if info.comparison is Some {
                    gl::COMPARE_REF_TO_TEXTURE as i32
                } else {
                    gl::NONE as i32
                },
            ),
        )
    } else if pname == gl::TEXTURE_COMPARE_FUNC {
        match info.comparison {
            Some(c) => Some(ParamValue::Int(spec_map_comparison(c) as i32)),
            None => None,
        }
    } else {
        None
    }
}

/// Every sampling parameter is set once, to the value the description asks
/// for: the filters of its filter method, the wrap mode of its own axis, the
/// level-of-detail bias and the bounds of the level-of-detail range, the
/// comparison mode and function, and the maximum anisotropy. Parameters
/// that the description does not ask for are not set.
pub proof fn law_sampler_params_follow_the_description(info: SamplerInfo)
    ensures
        ({
            let params = spec_sampler_params(info);
            &&& forall|i: int|
                0 <= i < params.len() ==> expected_param(info, #[trigger] params[i].pname) == Some(
                    params[i].value,
                )
            &&& forall|i: int, j: int|
                0 <= i < j < params.len() ==> #[trigger] params[i].pname != #[trigger] params[j].pname
            &&& params.len() == 9 + (if info.filtering is Anisotropic { 1int } else { 0 }) + (
            if info.comparison is Some { 1int } else { 0 })
        }),
{
    let params = spec_sampler_params(info);
    assert forall|i: int| 0 <= i < params.len() implies expected_param(
        info,
        #[trigger] params[i].pname,
    ) == Some(params[i].value) by {}
    assert forall|i: int, j: int| 0 <= i < j < params.len() implies #[trigger] params[i].pname
        != #[trigger] params[j].pname by {}
}

} // verus!
