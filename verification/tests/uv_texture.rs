use bevy::image::{ImageAddressMode, ImageFilterMode, ImageSampler, ImageSamplerDescriptor};
use game_engine::engine::uv::{AddressMode, FilterMode, UvDebug};
use wgpu_types::{TextureDataOrder, TextureDimension, TextureFormat, TextureUsages};

const PALETTE: [u8; 28] = [
    164, 164, 164, 255, 168, 168, 168, 255, 153, 153, 153, 255, 139, 139, 139, 255, 153, 153,
    153, 255, 177, 177, 177, 255, 159, 159, 159, 255,
];

fn expected_bytes() -> Vec<u8> {
    let mut palette = PALETTE;
    let mut data = vec![0u8; 196];
    for y in 0..7 {
        data[y * 28..y * 28 + 28].copy_from_slice(&palette);
        palette.rotate_right(12);
    }
    data
}

#[test]
fn uv_bytes_rotate_palette_per_row() {
    let data = UvDebug::uv_debug_texture_data();
    assert_eq!(data, expected_bytes());
    assert_eq!(&data[0..28], &PALETTE[..]);
    assert_eq!(&data[28..40], &PALETTE[16..28]);
    assert_eq!(&data[40..56], &PALETTE[0..16]);
}

#[test]
fn uv_texture_is_opaque() {
    let data = UvDebug::uv_debug_texture_data();
    assert!(data.iter().skip(3).step_by(4).all(|&a| a == 255));
}

#[test]
fn uv_rows_shift_by_three_pixels() {
    let data = UvDebug::uv_debug_texture_data();
    for y in 1..7 {
        for x in 0..28 {
            assert_eq!(data[28 * y + x], data[28 * (y - 1) + (x + 16) % 28]);
        }
    }
}

#[test]
fn uv_sampling_repeats_and_mirrors() {
    let s = UvDebug::uv_debug_sampling();
    assert_eq!(s.address_mode_u, AddressMode::Repeat);
    assert_eq!(s.address_mode_v, AddressMode::MirrorRepeat);
    assert_eq!(s.mag_filter, FilterMode::Nearest);
}

#[test]
fn uv_image_holds_texture() {
    let image = UvDebug::uv_debug_texture();
    assert_eq!(image.data, Some(expected_bytes()));
    let desc = &image.texture_descriptor;
    assert_eq!((desc.size.width, desc.size.height, desc.size.depth_or_array_layers), (7, 7, 1));
    assert_eq!(desc.dimension, TextureDimension::D2);
    assert_eq!(desc.format, TextureFormat::Rgba8UnormSrgb);
    assert_eq!(image.asset_usage, bevy::asset::RenderAssetUsages::RENDER_WORLD);
    match &image.sampler {
        ImageSampler::Descriptor(d) => {
            assert_eq!(d.address_mode_u, ImageAddressMode::Repeat);
            assert_eq!(d.address_mode_v, ImageAddressMode::MirrorRepeat);
            assert_eq!(d.address_mode_w, ImageAddressMode::ClampToEdge);
            assert_eq!(d.mag_filter, ImageFilterMode::Nearest);
            assert_eq!(d.min_filter, ImageFilterMode::Linear);
            assert_eq!(d.mipmap_filter, ImageFilterMode::Linear);
            let expected = ImageSamplerDescriptor {
                address_mode_u: ImageAddressMode::Repeat,
                address_mode_v: ImageAddressMode::MirrorRepeat,
                mag_filter: ImageFilterMode::Nearest,
                ..ImageSamplerDescriptor::linear()
            };
            assert_eq!(d, &expected);
        }
        other => panic!("unexpected sampler {:?}", other),
    }
}

#[test]
fn uv_images_of_two_calls_are_equal() {
    let a = UvDebug::uv_debug_texture();
    let b = UvDebug::uv_debug_texture();
    assert_eq!(a.data, b.data);
    assert_eq!(a.texture_descriptor, b.texture_descriptor);
    assert_eq!(a.asset_usage, b.asset_usage);
    assert_eq!(a.sampler, b.sampler);
}

#[test]
fn uv_image_keeps_new_image_settings() {
    let image = UvDebug::uv_debug_texture();
    let desc = &image.texture_descriptor;
    let usages = TextureUsages::COPY_SRC | TextureUsages::COPY_DST | TextureUsages::TEXTURE_BINDING;
    assert_eq!(desc.usage, usages);
    assert_eq!(usages.bits(), game_engine::engine::uv::NEW_IMAGE_TEXTURE_USAGES);
    assert_eq!((desc.mip_level_count, desc.sample_count), (1, 1));
    assert!(desc.label.is_none());
    assert!(desc.view_formats.is_empty());
    assert_eq!(image.data_order, TextureDataOrder::LayerMajor);
    assert!(image.texture_view_descriptor.is_none());
    assert!(!image.copy_on_resize);
}
