use gfx_tex::creation::{
    image_plan, make_surface_plan, make_with_storage_plan, make_without_storage_plan, storage_plan,
    surface_storage, RenderbufferStorage, StorageCall, TexImageCall,
};
use gfx_tex::format::{ChannelType, SurfaceType};
use gfx_tex::glenum as gl;
use gfx_tex::mip::{mip_level1, mip_level2, mip_level3, min_levels};
use gfx_tex::tex::{AaMode, Descriptor, Error, Kind, SHADER_RESOURCE};

fn desc(kind: Kind, levels: u8, format: SurfaceType, bind: u8) -> Descriptor {
    Descriptor { kind, levels, format, bind }
}

#[test]
fn mip_levels_are_bit_lengths() {
    assert_eq!(mip_level1(0), 0);
    assert_eq!(mip_level1(1), 1);
    assert_eq!(mip_level1(2), 2);
    assert_eq!(mip_level1(3), 2);
    assert_eq!(mip_level1(256), 9);
    assert_eq!(mip_level1(255), 8);
    assert_eq!(mip_level1(65535), 16);
    assert_eq!(mip_level2(100, 300), 9);
    assert_eq!(mip_level3(4, 1024, 17), 11);
    assert_eq!(min_levels(3, 9), 3);
    assert_eq!(min_levels(12, 9), 9);
}

#[test]
fn mip_levels_match_floating_point_logarithm() {
    for w in 1..=u16::MAX {
        let by_log = ((w as f32).log2() + 1.0) as u8;
        assert_eq!(mip_level1(w), by_log, "width {}", w);
    }
    assert_eq!(((0u16 as f32).log2() + 1.0) as u8, mip_level1(0));
}

#[test]
fn surface_single_and_multisample() {
    let d = desc(Kind::D2(640, 480, AaMode::Single), 1, SurfaceType::D24_S8, 0);
    let plan = make_surface_plan(&d, ChannelType::Unorm).unwrap();
    assert_eq!(plan.format, gl::DEPTH24_STENCIL8);
    assert_eq!(
        plan.storage,
        Ok(RenderbufferStorage::Single { format: gl::DEPTH24_STENCIL8, width: 640, height: 480 })
    );
    let d = desc(Kind::D2(64, 32, AaMode::Multi(4)), 1, SurfaceType::R8_G8_B8_A8, 0);
    let plan = make_surface_plan(&d, ChannelType::Srgb).unwrap();
    assert_eq!(
        plan.storage,
        Ok(RenderbufferStorage::Multisample {
            samples: 4,
            format: gl::SRGB8_ALPHA8,
            width: 64,
            height: 32,
        })
    );
}

#[test]
fn surface_errors_report_the_format() {
    let d = desc(Kind::D2(64, 32, AaMode::Single), 1, SurfaceType::R4_G4, 0);
    assert_eq!(
        make_surface_plan(&d, ChannelType::Unorm),
        Err(Error::Format(SurfaceType::R4_G4, Some(ChannelType::Unorm)))
    );
    let d = desc(Kind::D2(64, 32, AaMode::Coverage(4, 8)), 1, SurfaceType::R8, 0);
    let plan = make_surface_plan(&d, ChannelType::Unorm).unwrap();
    assert_eq!(plan.format, gl::R8);
    assert_eq!(plan.storage, Err(Error::Format(SurfaceType::R8, Some(ChannelType::Unorm))));
    assert_eq!(surface_storage(gl::R8, (1, 1, 0, AaMode::Coverage(1, 2))), Err(()));
}

#[test]
fn storage_levels_are_capped() {
    let d = desc(Kind::D2(256, 64, AaMode::Single), 20, SurfaceType::R8_G8_B8_A8, 0);
    let plan = make_with_storage_plan(&d, ChannelType::Unorm).unwrap();
    assert_eq!(plan.target, gl::TEXTURE_2D);
    let a = plan.allocation.unwrap();
    assert_eq!(
        a.calls,
        StorageCall::Storage2D {
            target: gl::TEXTURE_2D,
            levels: 9,
            internal_format: gl::RGBA8,
            width: 256,
            height: 64,
        }
    );
    assert_eq!((a.base_level, a.max_level), (0, Some(19)));

    let d = desc(Kind::D3(8, 16, 4), 2, SurfaceType::R32, 0);
    let a = make_with_storage_plan(&d, ChannelType::Float).unwrap().allocation.unwrap();
    assert_eq!(
        a.calls,
        StorageCall::Storage3D {
            target: gl::TEXTURE_3D,
            levels: 2,
            internal_format: gl::R32F,
            width: 8,
            height: 16,
            depth: 4,
        }
    );
    assert_eq!((a.base_level, a.max_level), (0, Some(1)));
}

#[test]
fn storage_array_and_multisample_kinds() {
    let p = storage_plan(Kind::D1Array(32, 5), gl::R8, 1, false);
    assert_eq!(
        p.allocation.unwrap().calls,
        StorageCall::Storage2D { target: gl::TEXTURE_1D_ARRAY, levels: 1, internal_format: gl::R8, width: 32, height: 5 }
    );
    let p = storage_plan(Kind::D2Array(16, 8, 3, AaMode::Multi(4)), gl::RGBA8, 1, true);
    assert_eq!(
        p.allocation.unwrap().calls,
        StorageCall::Storage3DMultisample {
            target: gl::TEXTURE_2D_MULTISAMPLE_ARRAY,
            samples: 4,
            internal_format: gl::RGBA8,
            width: 16,
            height: 8,
            depth: 3,
            fixed_sample_locations: gl::TRUE,
        }
    );
    let d = desc(Kind::D2(16, 8, AaMode::Multi(2)), 1, SurfaceType::R8_G8_B8_A8, 0);
    let a = make_with_storage_plan(&d, ChannelType::Unorm).unwrap().allocation.unwrap();
    assert_eq!(
        a.calls,
        StorageCall::Storage2DMultisample {
            target: gl::TEXTURE_2D_MULTISAMPLE,
            samples: 2,
            internal_format: gl::RGBA8,
            width: 16,
            height: 8,
            fixed_sample_locations: gl::FALSE,
        }
    );
}

#[test]
fn storage_errors() {
    let d = desc(Kind::Cube(16, 16), 1, SurfaceType::R8, 0);
    let p = make_with_storage_plan(&d, ChannelType::Unorm).unwrap();
    assert_eq!(p.target, gl::TEXTURE_CUBE_MAP);
    assert_eq!(p.allocation.unwrap_err(), Error::Kind);
    let p = storage_plan(Kind::CubeArray(16, 16, 2), gl::R8, 1, false);
    assert_eq!(p.allocation.unwrap_err(), Error::Kind);
    let p = storage_plan(Kind::D2(16, 16, AaMode::Coverage(2, 4)), gl::R8, 1, false);
    assert_eq!(p.allocation.unwrap_err(), Error::Samples(AaMode::Coverage(2, 4)));
    let d = desc(Kind::D2(16, 16, AaMode::Single), 1, SurfaceType::R11_G11_B10, 0);
    assert_eq!(
        make_with_storage_plan(&d, ChannelType::Float).unwrap_err(),
        Error::Format(SurfaceType::R11_G11_B10, Some(ChannelType::Float))
    );
}

#[test]
fn images_without_storage() {
    let d = desc(Kind::D2(64, 32, AaMode::Single), 3, SurfaceType::R8_G8_B8_A8, 0);
    let p = make_without_storage_plan(&d, ChannelType::Unorm).unwrap();
    assert_eq!(p.target, gl::TEXTURE_2D);
    let a = p.allocation.unwrap();
    assert_eq!(
        a.calls,
        vec![TexImageCall::Image2D {
            target: gl::TEXTURE_2D,
            internal_format: gl::RGBA8 as i32,
            width: 64,
            height: 32,
            pixel_format: gl::RGBA,
            data_type: gl::UNSIGNED_BYTE,
        }]
    );
    assert_eq!((a.base_level, a.max_level), (0, Some(2)));

    let d = desc(Kind::D2Array(8, 8, 4, AaMode::Multi(8)), 1, SurfaceType::D32, SHADER_RESOURCE);
    let a = make_without_storage_plan(&d, ChannelType::Float).unwrap().allocation.unwrap();
    assert_eq!(
        a.calls,
        vec![TexImageCall::Image3DMultisample {
            target: gl::TEXTURE_2D_MULTISAMPLE_ARRAY,
            samples: 8,
            internal_format: gl::DEPTH_COMPONENT32F,
            width: 8,
            height: 8,
            depth: 4,
            fixed_sample_locations: gl::TRUE,
        }]
    );

    let p = image_plan(Kind::D1(10), gl::R16 as i32, gl::RED, gl::UNSIGNED_SHORT, 1, false);
    assert_eq!(
        p.allocation.unwrap().calls,
        vec![TexImageCall::Image1D {
            target: gl::TEXTURE_1D,
            internal_format: gl::R16 as i32,
            width: 10,
            pixel_format: gl::RED,
            data_type: gl::UNSIGNED_SHORT,
        }]
    );
}

#[test]
fn cube_images_cover_every_face() {
    let d = desc(Kind::Cube(32, 32), 6, SurfaceType::R8_G8_B8, 0);
    let p = make_without_storage_plan(&d, ChannelType::Unorm).unwrap();
    assert_eq!(p.target, gl::TEXTURE_CUBE_MAP);
    let a = p.allocation.unwrap();
    let faces = [
        gl::TEXTURE_CUBE_MAP_POSITIVE_X,
        gl::TEXTURE_CUBE_MAP_NEGATIVE_X,
        gl::TEXTURE_CUBE_MAP_POSITIVE_Y,
        gl::TEXTURE_CUBE_MAP_NEGATIVE_Y,
        gl::TEXTURE_CUBE_MAP_POSITIVE_Z,
        gl::TEXTURE_CUBE_MAP_NEGATIVE_Z,
    ];
    assert_eq!(a.calls.len(), 6);
    for (call, face) in a.calls.iter().zip(faces.iter()) {
        assert_eq!(
            *call,
            TexImageCall::Image2D {
                target: *face,
                internal_format: gl::RGB8 as i32,
                width: 32,
                height: 32,
                pixel_format: gl::RGB,
                data_type: gl::UNSIGNED_BYTE,
            }
        );
    }
    assert_eq!((a.base_level, a.max_level), (0, Some(5)));
}

#[test]
fn errors_without_storage() {
    let d = desc(Kind::D2(4, 4, AaMode::Single), 1, SurfaceType::R8_G8_B8, 0);
    assert_eq!(
        make_without_storage_plan(&d, ChannelType::Srgb).unwrap_err(),
        Error::Format(SurfaceType::R8_G8_B8, Some(ChannelType::Srgb))
    );
    let d = desc(Kind::CubeArray(4, 4, 2), 1, SurfaceType::R8, 0);
    let p = make_without_storage_plan(&d, ChannelType::Unorm).unwrap();
    assert_eq!(p.target, gl::TEXTURE_CUBE_MAP_ARRAY);
    assert_eq!(p.allocation.unwrap_err(), Error::Kind);
    let d = desc(Kind::D2Array(4, 4, 2, AaMode::Coverage(4, 8)), 1, SurfaceType::R8, 0);
    let p = make_without_storage_plan(&d, ChannelType::Unorm).unwrap();
    assert_eq!(p.allocation.unwrap_err(), Error::Samples(AaMode::Coverage(4, 8)));
}

#[test]
fn unsupported_kinds_need_no_levels() {
    let d = desc(Kind::CubeArray(4, 4, 2), 0, SurfaceType::R8, 0);
    assert_eq!(make_with_storage_plan(&d, ChannelType::Unorm).unwrap().allocation.unwrap_err(), Error::Kind);
}

#[test]
fn image_errors_are_storage_errors() {
    let kinds = [
        Kind::CubeArray(8, 8, 2),
        Kind::D2(8, 8, AaMode::Coverage(2, 4)),
        Kind::D2Array(8, 8, 3, AaMode::Coverage(4, 4)),
    ];
    for kind in kinds.iter() {
        let image_error = image_plan(*kind, gl::R8 as i32, gl::RED, gl::UNSIGNED_BYTE, 1, false)
            .allocation
            .unwrap_err();
        let storage_error = storage_plan(*kind, gl::R8, 1, false).allocation.unwrap_err();
        assert_eq!(image_error, storage_error);
    }
    assert!(image_plan(Kind::Cube(8, 8), gl::R8 as i32, gl::RED, gl::UNSIGNED_BYTE, 1, false)
        .allocation
        .is_ok());
    assert_eq!(storage_plan(Kind::Cube(8, 8), gl::R8, 1, false).allocation.unwrap_err(), Error::Kind);
}

#[test]
fn zero_levels_allocate_no_level_and_have_no_highest_level() {
    let d = desc(Kind::D2(256, 64, AaMode::Single), 0, SurfaceType::R8_G8_B8_A8, 0);
    let a = make_with_storage_plan(&d, ChannelType::Unorm).unwrap().allocation.unwrap();
    assert_eq!(
        a.calls,
        StorageCall::Storage2D {
            target: gl::TEXTURE_2D,
            levels: 0,
            internal_format: gl::RGBA8,
            width: 256,
            height: 64,
        }
    );
    assert_eq!((a.base_level, a.max_level), (0, None));
    let d = desc(Kind::D1(16), 0, SurfaceType::R8, 0);
    let a = make_without_storage_plan(&d, ChannelType::Unorm).unwrap().allocation.unwrap();
    assert_eq!(a.calls.len(), 1);
    assert_eq!(a.max_level, None);
}
