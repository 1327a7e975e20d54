use gfx_tex::glenum as gl;
use gfx_tex::sampler::{sampler_params, ParamValue, SamplerParam};
use gfx_tex::tex::{Comparison, FilterMethod, Lod, SamplerInfo, WrapMode};

fn enum_param(pname: u32, value: u32) -> SamplerParam {
    SamplerParam { pname, value: ParamValue::Int(value as i32) }
}

fn lod(pname: u32, eighths: i16) -> SamplerParam {
    SamplerParam { pname, value: ParamValue::LevelOfDetail(Lod(eighths)) }
}

#[test]
fn plain_sampler_parameters() {
    let info = SamplerInfo {
        filtering: FilterMethod::Bilinear,
        wrap_mode: (WrapMode::Tile, WrapMode::Mirror, WrapMode::Clamp),
        lod_bias: Lod(4),
        lod_range: (Lod(-8000), Lod(8000)),
        comparison: None,
    };
    assert_eq!(
        sampler_params(&info),
        vec![
            enum_param(gl::TEXTURE_MIN_FILTER, gl::LINEAR),
            enum_param(gl::TEXTURE_MAG_FILTER, gl::LINEAR),
            enum_param(gl::TEXTURE_WRAP_S, gl::REPEAT),
            enum_param(gl::TEXTURE_WRAP_T, gl::MIRRORED_REPEAT),
            enum_param(gl::TEXTURE_WRAP_R, gl::CLAMP_TO_EDGE),
            lod(gl::TEXTURE_LOD_BIAS, 4),
            lod(gl::TEXTURE_MIN_LOD, -8000),
            lod(gl::TEXTURE_MAX_LOD, 8000),
            enum_param(gl::TEXTURE_COMPARE_MODE, gl::NONE),
        ]
    );
}

#[test]
fn anisotropic_shadow_sampler_parameters() {
    let info = SamplerInfo {
        filtering: FilterMethod::Anisotropic(16),
        wrap_mode: (WrapMode::Clamp, WrapMode::Clamp, WrapMode::Clamp),
        lod_bias: Lod(0),
        lod_range: (Lod(0), Lod(80)),
        comparison: Some(Comparison::LessEqual),
    };
    let params = sampler_params(&info);
    assert_eq!(params.len(), 11);
    assert_eq!(
        params[0],
        SamplerParam { pname: gl::TEXTURE_MAX_ANISOTROPY_EXT, value: ParamValue::Anisotropy(16) }
    );
    assert_eq!(params[1], enum_param(gl::TEXTURE_MIN_FILTER, gl::LINEAR_MIPMAP_LINEAR));
    assert_eq!(params[2], enum_param(gl::TEXTURE_MAG_FILTER, gl::LINEAR));
    assert_eq!(params[9], enum_param(gl::TEXTURE_COMPARE_MODE, gl::COMPARE_REF_TO_TEXTURE));
    assert_eq!(params[10], enum_param(gl::TEXTURE_COMPARE_FUNC, gl::LEQUAL));
}

#[test]
fn mipmapped_nearest_filtering() {
    let info = SamplerInfo {
        filtering: FilterMethod::Mipmap,
        wrap_mode: (WrapMode::Tile, WrapMode::Tile, WrapMode::Tile),
        lod_bias: Lod(0),
        lod_range: (Lod(0), Lod(0)),
        comparison: None,
    };
    let params = sampler_params(&info);
    assert_eq!(params[0], enum_param(gl::TEXTURE_MIN_FILTER, gl::NEAREST_MIPMAP_NEAREST));
    assert_eq!(params[1], enum_param(gl::TEXTURE_MAG_FILTER, gl::NEAREST));
}
