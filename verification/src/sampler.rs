//! The OpenGL parameters that configure sampling, shared by texture
//! parameters (compatibility profile) and sampler objects.

use vstd::prelude::*;
use crate::glenum as gl;
use crate::tex::{
    filter_to_gl, map_comparison, spec_filter_to_gl, spec_map_comparison, spec_wrap_to_gl,
    wrap_to_gl, Comparison, FilterMethod, Lod, SamplerInfo,
};

verus! {

/// The value a sampling parameter is set to. Floating-point parameters
/// keep the value they are computed from: the anisotropy factor is set as a
/// float of that integer, a level of detail as its number of eighths
/// divided by 8.
#[derive(Clone, Copy, Debug, PartialEq, Eq, Structural)]
pub enum ParamValue {
    /// An integer parameter (`*Parameteri`).
    Int(i32),
    /// The maximum anisotropy (`*Parameterf`).
    Anisotropy(u8),
    /// A level of detail (`*Parameterf`).
    LevelOfDetail(Lod),
}

/// One sampling parameter: its name and its value.
#[derive(Clone, Copy, Debug, PartialEq, Eq, Structural)]
pub struct SamplerParam {
    pub pname: u32,
    pub value: ParamValue,
}

/// An integer parameter with a `GLenum` value.
pub open spec fn enum_param(pname: u32, value: u32) -> SamplerParam {
    SamplerParam { pname, value: ParamValue::Int(value as i32) }
}

/// The parameters that apply a sampler description, in the order they are
/// set: the maximum anisotropy for anisotropic filtering, the minification
/// and magnification filters, the S, T and R wrap modes, the level-of-detail
/// bias, minimum and maximum, and the comparison mode, followed by the
/// comparison function when there is a comparison.
pub open spec fn spec_sampler_params(info: SamplerInfo) -> Seq<SamplerParam> {
    let (min, mag) = spec_filter_to_gl(info.filtering);
    let anisotropy = match info.filtering {
        FilterMethod::Anisotropic(fac) => seq![
            SamplerParam {
                pname: gl::TEXTURE_MAX_ANISOTROPY_EXT,
                value: ParamValue::Anisotropy(fac),
            },
        ],
        _ => Seq::empty(),
    };
    let common = seq![
        enum_param(gl::TEXTURE_MIN_FILTER, min),
        enum_param(gl::TEXTURE_MAG_FILTER, mag),
        enum_param(gl::TEXTURE_WRAP_S, spec_wrap_to_gl(info.wrap_mode.0)),
        enum_param(gl::TEXTURE_WRAP_T, spec_wrap_to_gl(info.wrap_mode.1)),
        enum_param(gl::TEXTURE_WRAP_R, spec_wrap_to_gl(info.wrap_mode.2)),
        SamplerParam { pname: gl::TEXTURE_LOD_BIAS, value: ParamValue::LevelOfDetail(info.lod_bias) },
        SamplerParam {
            pname: gl::TEXTURE_MIN_LOD,
            value: ParamValue::LevelOfDetail(info.lod_range.0),
        },
        SamplerParam {
            pname: gl::TEXTURE_MAX_LOD,
            value: ParamValue::LevelOfDetail(info.lod_range.1),
        },
    ];
    let comparison = match info.comparison {
        None => seq![enum_param(gl::TEXTURE_COMPARE_MODE, gl::NONE)],
        Some(c) => seq![
            enum_param(gl::TEXTURE_COMPARE_MODE, gl::COMPARE_REF_TO_TEXTURE),
            enum_param(gl::TEXTURE_COMPARE_FUNC, spec_map_comparison(c)),
        ],
    };
    anisotropy + common + comparison
}

/// The parameters that apply the sampler description `info`, in the order
/// they are set.
pub fn sampler_params(info: &SamplerInfo) -> (r: Vec<SamplerParam>)
    ensures
        r@ == spec_sampler_params(*info),
{
    let (min, mag) = filter_to_gl(info.filtering);
    let mut params: Vec<SamplerParam> = Vec::new();
    match info.filtering {
        FilterMethod::Anisotropic(fac) => {
            params.push(
                SamplerParam {
                    pname: gl::TEXTURE_MAX_ANISOTROPY_EXT,
                    value: ParamValue::Anisotropy(fac),
                },
            );
        },
        _ => {},
    }
    params.push(SamplerParam { pname: gl::TEXTURE_MIN_FILTER, value: ParamValue::Int(min as i32) });
    params.push(SamplerParam { pname: gl::TEXTURE_MAG_FILTER, value: ParamValue::Int(mag as i32) });
    let (s, t, r) = info.wrap_mode;
    params.push(
        SamplerParam { pname: gl::TEXTURE_WRAP_S, value: ParamValue::Int(wrap_to_gl(s) as i32) },
    );
    params.push(
        SamplerParam { pname: gl::TEXTURE_WRAP_T, value: ParamValue::Int(wrap_to_gl(t) as i32) },
    );
    params.push(
        SamplerParam { pname: gl::TEXTURE_WRAP_R, value: ParamValue::Int(wrap_to_gl(r) as i32) },
    );
    params.push(
        SamplerParam {
            pname: gl::TEXTURE_LOD_BIAS,
            value: ParamValue::LevelOfDetail(info.lod_bias),
        },
    );
    let (min_lod, max_lod) = info.lod_range;
    params.push(
        SamplerParam { pname: gl::TEXTURE_MIN_LOD, value: ParamValue::LevelOfDetail(min_lod) },
    );
    params.push(
        SamplerParam { pname: gl::TEXTURE_MAX_LOD, value: ParamValue::LevelOfDetail(max_lod) },
    );
    match info.comparison {
        None => {
            params.push(
                SamplerParam {
                    pname: gl::TEXTURE_COMPARE_MODE,
                    value: ParamValue::Int(gl::NONE as i32),
                },
            );
        },
        Some(func) => {
            params.push(
                SamplerParam {
                    pname: gl::TEXTURE_COMPARE_MODE,
                    value: ParamValue::Int(gl::COMPARE_REF_TO_TEXTURE as i32),
                },
            );
            params.push(
                SamplerParam {
                    pname: gl::TEXTURE_COMPARE_FUNC,
                    value: ParamValue::Int(map_comparison(func) as i32),
                },
            );
        },
    }
    proof {
        assert(params@ =~= spec_sampler_params(*info));
    }
    params
}

} // verus!
