//! The OpenGL calls that upload data into a region of a texture, and the
//! target of mipmap generation.

use vstd::prelude::*;
use crate::format::{format_to_glpixel, format_to_gltype, spec_glpixel, spec_gltype};
use crate::tex::{
    kind_face_to_gl, kind_to_gl, spec_aa_mode, spec_kind_face_to_gl, spec_kind_to_gl,
    spec_num_fragments, AaMode, CubeFace, Error, ImageInfo, Kind,
};

verus! {

/// An upload into a region of a bound texture (`TexSubImage*`); the data
/// itself is handed to the call by the caller.
#[allow(inconsistent_fields)]
#[derive(Clone, Copy, Debug, PartialEq, Eq, Structural)]
pub enum SubImageCall {
    SubImage1D {
        target: u32,
        level: i32,
        xoffset: i32,
        width: i32,
        pixel_format: u32,
        data_type: u32,
    },
    SubImage2D {
        target: u32,
        level: i32,
        xoffset: i32,
        yoffset: i32,
        width: i32,
        height: i32,
        pixel_format: u32,
        data_type: u32,
    },
    SubImage3D {
        target: u32,
        level: i32,
        xoffset: i32,
        yoffset: i32,
        zoffset: i32,
        width: i32,
        height: i32,
        depth: i32,
        pixel_format: u32,
        data_type: u32,
    },
}

/// An update of a texture: bind the texture to `bind_target`, then make the
/// upload; where the upload is an error, the update fails with it after
/// the texture was bound.
#[derive(Clone, Copy, Debug, PartialEq, Eq)]
pub struct UpdatePlan {
    pub bind_target: u32,
    pub upload: Result<SubImageCall, Error>,
}

/// The `TexSubImage*` call that uploads the region `img` of a texture of
/// kind `kind` through `target`: 1D for rows, 2D for arrays of rows,
/// single-sampled 2D textures and cube faces, 3D for single-sampled 2D
/// arrays and volumes. Cube arrays fail with `Error::Kind`, multisampled
/// 2D kinds with `Error::Samples`.
pub open spec fn spec_sub_image(
    kind: Kind,
    target: u32,
    pix: u32,
    typ: u32,
    img: ImageInfo,
) -> Result<SubImageCall, Error> {
    let two_d = SubImageCall::SubImage2D {
        target,
        level: img.mipmap as i32,
        xoffset: img.xoffset as i32,
        yoffset: img.yoffset as i32,
        width: img.width as i32,
        height: img.height as i32,
        pixel_format: pix,
        data_type: typ,
    };
    let three_d = SubImageCall::SubImage3D {
        target,
        level: img.mipmap as i32,
        xoffset: img.xoffset as i32,
        yoffset: img.yoffset as i32,
        zoffset: img.zoffset as i32,
        width: img.width as i32,
        height: img.height as i32,
        depth: img.depth as i32,
        pixel_format: pix,
        data_type: typ,
    };
    match kind {
        Kind::D1(_) => Ok(
            SubImageCall::SubImage1D {
                target,
                level: img.mipmap as i32,
                xoffset: img.xoffset as i32,
                width: img.width as i32,
                pixel_format: pix,
                data_type: typ,
            },
        ),
        Kind::D1Array(_, _) | Kind::Cube(_, _) => Ok(two_d),
        Kind::D3(_, _, _) => Ok(three_d),
        Kind::D2(_, _, aa) => if aa == AaMode::Single {
            Ok(two_d)
        } else {
            Err(Error::Samples(aa))
        },
        Kind::D2Array(_, _, _, aa) => if aa == AaMode::Single {
            Ok(three_d)
        } else {
            Err(Error::Samples(aa))
        },
        Kind::CubeArray(_, _, _) => Err(Error::Kind),
    }
}

/// The `TexSubImage*` call that uploads the region `img` of a texture of
/// kind `kind` through `target`, with the given pixel format and data type.
pub fn sub_image_call(kind: Kind, target: u32, pix: u32, typ: u32, img: &ImageInfo) -> (r:
    Result<SubImageCall, Error>)
    ensures
        r == spec_sub_image(kind, target, pix, typ, *img),
{
    match kind {
        Kind::D1(_) => Ok(
            SubImageCall::SubImage1D {
                target,
                level: img.mipmap as i32,
                xoffset: img.xoffset as i32,
                width: img.width as i32,
                pixel_format: pix,
                data_type: typ,
            },
        ),
        Kind::D1Array(_, _) | Kind::D2(_, _, AaMode::Single) => Ok(
            SubImageCall::SubImage2D {
                target,
                level: img.mipmap as i32,
                xoffset: img.xoffset as i32,
                yoffset: img.yoffset as i32,
                width: img.width as i32,
                height: img.height as i32,
                pixel_format: pix,
                data_type: typ,
            },
        ),
        Kind::D2Array(_, _, _, AaMode::Single) | Kind::D3(_, _, _) => Ok(
            SubImageCall::SubImage3D {
                target,
                level: img.mipmap as i32,
                xoffset: img.xoffset as i32,
                yoffset: img.yoffset as i32,
                zoffset: img.zoffset as i32,
                width: img.width as i32,
                height: img.height as i32,
                depth: img.depth as i32,
                pixel_format: pix,
                data_type: typ,
            },
        ),
        Kind::Cube(_, _) => Ok(
            SubImageCall::SubImage2D {
                target,
                level: img.mipmap as i32,
                xoffset: img.xoffset as i32,
                yoffset: img.yoffset as i32,
                width: img.width as i32,
                height: img.height as i32,
                pixel_format: pix,
                data_type: typ,
            },
        ),
        Kind::CubeArray(_, _, _) => Err(Error::Kind),
        Kind::D2(_, _, aa) => Err(Error::Samples(aa)),
        Kind::D2Array(_, _, _, aa) => Err(Error::Samples(aa)),
    }
}

/// The update of the region `img` of a texture of kind `kind`, on the given
/// cube face if any. It fails with `Error::Format` before any call when the
/// format of `img` has no pixel data type; otherwise the texture is bound to
/// the target of its kind and the upload goes through the face's target
/// (or the kind's target when no face is given).
pub fn update_texture_plan(kind: Kind, face: Option<CubeFace>, img: &ImageInfo) -> (r: Result<
    UpdatePlan,
    Error,
>)
    ensures
        r is Err <==> spec_gltype(img.format) is None,
        r matches Err(e) ==> e == Error::Format(img.format.0, Some(img.format.1)),
        r matches Ok(p) ==> {
            &&& p.bind_target == spec_kind_to_gl(kind)
            &&& p.upload == spec_sub_image(
                kind,
                spec_kind_face_to_gl(kind, face),
                spec_glpixel(img.format.0),
                spec_gltype(img.format)->0,
                *img,
            )
        },
{
    let pixel_format = format_to_glpixel(img.format);
    let data_type = match format_to_gltype(img.format) {
        Ok(t) => t,
        Err(_) => return Err(Error::Format(img.format.0, Some(img.format.1))),
    };
    let bind_target = kind_to_gl(kind);
    let target = kind_face_to_gl(kind, face);
    let upload = sub_image_call(kind, target, pixel_format, data_type, img);
    Ok(UpdatePlan { bind_target, upload })
}

/// The target on which mipmaps of a texture of kind `kind` are generated.
/// A texture whose texels hold more than one fragment has to be resolved
/// first and gets no mipmaps.
pub fn generate_mipmap_target(kind: Kind) -> (r: u32)
    requires
        !(spec_num_fragments(spec_aa_mode(kind)) > 1),
    ensures
        r == spec_kind_to_gl(kind),
{
    let (_, _, _, aa) = kind.get_dimensions();
    let needs_resolve = aa.needs_resolve();
    assert(!needs_resolve);
    kind_to_gl(kind)
}

} // verus!
