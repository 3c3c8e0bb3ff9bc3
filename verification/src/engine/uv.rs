use crate::engine::fbx_scene::{AssetUsages, RENDER_WORLD_BIT};
use bevy::asset::RenderAssetUsages;
use bevy::image::{Image, ImageAddressMode, ImageFilterMode, ImageSampler, ImageSamplerDescriptor};
use vstd::prelude::*;
use wgpu_types::{Extent3d, TextureDimension, TextureFormat};

verus! {

/// Marker for the UV debug texture.
pub struct UvDebug;

/// Width and height of the UV debug texture, in pixels.
pub const TEXTURE_SIZE: usize = 7;

/// Bytes in one row of the UV debug texture: seven RGBA pixels.
pub const ROW_BYTES: usize = 28;

/// Bytes in the whole UV debug texture.
pub const TEXTURE_BYTES: usize = 196;

/// Bytes by which each row is rotated against the row above: three pixels.
pub const ROW_SHIFT: usize = 12;

/// The seven opaque grey RGBA pixels of the first row.
pub open spec fn uv_palette() -> Seq<u8> {
    seq![
        164u8, 164, 164, 255, 168, 168, 168, 255, 153, 153, 153, 255, 139, 139, 139, 255,
        153, 153, 153, 255, 177, 177, 177, 255, 159, 159, 159, 255,
    ]
}

/// The byte at position `i` of the texture: row `i / 28` holds the palette
/// rotated right by twelve bytes per row.
pub open spec fn uv_texel(i: int) -> u8 {
    uv_palette()[(i % 28 - 12 * (i / 28)) % 28]
}

/// The palette rotated right by twelve bytes `y` times.
pub open spec fn rotated_palette_byte(y: int, j: int) -> u8 {
    uv_palette()[(j - 12 * y) % 28]
}

/// Rotates `v` right by `k`: its last `k` elements move to the front.
fn rotate_right(v: &mut Vec<u8>, k: usize)
    requires
        k <= old(v)@.len(),
    ensures
        final(v)@ == old(v)@.subrange(old(v)@.len() - k, old(v)@.len() as int) + old(v)@.subrange(
            0,
            old(v)@.len() - k,
        ),
{
    let n = v.len();
    let mut out: Vec<u8> = Vec::new();
    let mut i: usize = n - k;
    while i < n
        invariant
            n == v@.len(),
            k <= n,
            n - k <= i <= n,
            out@ == v@.subrange(n - k, i as int),
        decreases n - i,
    {
        out.push(v[i]);
        i = i + 1;
    }
    let mut j: usize = 0;
    while j < n - k
        invariant
            n == v@.len(),
            k <= n,
            j <= n - k,
            out@ == v@.subrange(n - k, n as int) + v@.subrange(0, j as int),
        decreases n - k - j,
    {
        out.push(v[j]);
        j = j + 1;
    }
    *v = out;
}

/// Copies `src` into `dst` from `offset` on.
fn copy_from_slice_at(dst: &mut Vec<u8>, offset: usize, src: &Vec<u8>)
    requires
        offset + src@.len() <= old(dst)@.len(),
    ensures
        final(dst)@ == old(dst)@.subrange(0, offset as int) + src@ + old(dst)@.subrange(
            offset + src@.len(),
            old(dst)@.len() as int,
        ),
{
    let ghost before = dst@;
    let dst_len = dst.len();
    let mut i: usize = 0;
    while i < src.len()
        invariant
            offset + src@.len() <= before.len(),
            dst@.len() == before.len(),
            dst_len == before.len(),
            i <= src@.len(),
            forall|p: int| 0 <= p < offset ==> #[trigger] dst@[p] == before[p],
            forall|p: int| 0 <= p < i ==> #[trigger] dst@[offset + p] == src@[p],
            forall|p: int| offset + i <= p < before.len() ==> #[trigger] dst@[p] == before[p],
        decreases src@.len() - i,
    {
        dst.set(offset + i, src[i]);
        i = i + 1;
    }
    assert forall|p: int| offset <= p < offset + src@.len() implies #[trigger] dst@[p] == src@[p - offset] by {
        assert(dst@[offset + (p - offset)] == src@[p - offset]);
    }
    assert(dst@ =~= before.subrange(0, offset as int) + src@ + before.subrange(
        offset + src@.len(),
        before.len() as int,
    ));
}

/// Rotating the `y`-times rotated palette right by twelve more bytes gives
/// the palette rotated `y + 1` times.
proof fn lemma_rotate_step(y: int, j: int)
    requires
        0 <= j < 28,
    ensures
        (if j < 12 { rotated_palette_byte(y, j + 16) } else { rotated_palette_byte(y, j - 12) })
            == rotated_palette_byte(y + 1, j),
{
    if j < 12 {
        assert((j + 16 - 12 * y) % 28 == (j - 12 * (y + 1)) % 28) by (nonlinear_arith);
    } else {
        assert((j - 12 - 12 * y) % 28 == (j - 12 * (y + 1)) % 28) by (nonlinear_arith);
    }
}

/// The byte at column `x` of row `y` is that of the `y`-times rotated
/// palette.
proof fn lemma_texel_in_row(y: int, x: int)
    requires
        0 <= y,
        0 <= x < 28,
    ensures
        uv_texel(28 * y + x) == rotated_palette_byte(y, x),
{
    assert((28 * y + x) / 28 == y && (28 * y + x) % 28 == x) by (nonlinear_arith)
        requires
            0 <= y,
            0 <= x < 28,
    ;
}

impl UvDebug {
    /// The RGBA bytes of the 7x7 UV debug texture: row `y` is the palette
    /// rotated right by `12 * y` bytes (three pixels per row).
    pub fn uv_debug_texture_data() -> (data: Vec<u8>)
        ensures
            data@.len() == TEXTURE_BYTES,
            forall|i: int| 0 <= i < TEXTURE_BYTES ==> #[trigger] data@[i] == uv_texel(i),
    {
        let mut palette: Vec<u8> = vec![
            164, 164, 164, 255, 168, 168, 168, 255, 153, 153, 153, 255, 139, 139, 139, 255,
            153, 153, 153, 255, 177, 177, 177, 255, 159, 159, 159, 255,
        ];
        assert(palette@ =~= uv_palette());
        let mut texture_data: Vec<u8> = vec![0u8; TEXTURE_SIZE * TEXTURE_SIZE * 4];
        let mut y: usize = 0;
        while y < TEXTURE_SIZE
            invariant
                y <= TEXTURE_SIZE,
                palette@.len() == ROW_BYTES,
                texture_data@.len() == TEXTURE_BYTES,
                forall|j: int| 0 <= j < ROW_BYTES ==> #[trigger] palette@[j] == rotated_palette_byte(y as int, j),
                forall|i: int| 0 <= i < ROW_BYTES * y ==> #[trigger] texture_data@[i] == uv_texel(i),
            decreases TEXTURE_SIZE - y,
        {
            let offset = TEXTURE_SIZE * y * 4;
            let ghost before = texture_data@;
            copy_from_slice_at(&mut texture_data, offset, &palette);
            assert forall|i: int| 0 <= i < ROW_BYTES * (y + 1) implies #[trigger] texture_data@[i] == uv_texel(i) by {
                if i >= ROW_BYTES * y {
                    lemma_texel_in_row(y as int, i - 28 * y);
                    assert(texture_data@[i] == palette@[i - 28 * y]);
                } else {
                    assert(texture_data@[i] == before[i]);
                }
            }
            let ghost old_palette = palette@;
            rotate_right(&mut palette, ROW_SHIFT);
            assert forall|j: int| 0 <= j < ROW_BYTES implies #[trigger] palette@[j] == rotated_palette_byte(y + 1, j) by {
                lemma_rotate_step(y as int, j);
                if j < 12 {
                    assert(palette@[j] == old_palette[j + 16]);
                } else {
                    assert(palette@[j] == old_palette[j - 12]);
                }
            }
            y = y + 1;
        }
        texture_data
    }
}

/// Every pixel of the UV debug texture is opaque: each fourth byte, the
/// alpha channel, is 255.
pub proof fn lemma_uv_texture_is_opaque(i: int)
    requires
        0 <= i < TEXTURE_BYTES,
        i % 4 == 3,
    ensures
        uv_texel(i) == 255,
{
    let x = i % 28;
    let y = i / 28;
    let k = (x - 12 * y) % 28;
    assert(k % 4 == 3 && 0 <= k < 28) by (nonlinear_arith)
        requires
            i % 4 == 3,
            x == i % 28,
            y == i / 28,
            k == (x - 12 * y) % 28,
    ;
    assert(uv_palette()[k] == 255) by {
        assert(k == 3 || k == 7 || k == 11 || k == 15 || k == 19 || k == 23 || k == 27);
    }
}

/// The first row of the UV debug texture is the palette itself.
pub proof fn lemma_uv_first_row_is_palette(x: int)
    requires
        0 <= x < ROW_BYTES,
    ensures
        uv_texel(x) == uv_palette()[x],
{
    lemma_texel_in_row(0, x);
}

/// Each row of the UV debug texture is the row above it shifted right by
/// three pixels (twelve bytes), wrapping around.
pub proof fn lemma_uv_rows_shift_by_three_pixels(y: int, x: int)
    requires
        1 <= y < TEXTURE_SIZE,
        0 <= x < ROW_BYTES,
    ensures
        uv_texel(28 * y + x) == uv_texel(28 * (y - 1) + (x - 12) % 28),
{
    lemma_texel_in_row(y, x);
    let x2 = (x - 12) % 28;
    assert(0 <= x2 < 28);
    lemma_texel_in_row(y - 1, x2);
    assert((x2 - 12 * (y - 1)) % 28 == (x - 12 * y) % 28) by (nonlinear_arith)
        requires
            x2 == (x - 12) % 28,
    ;
}

#[verifier::external_type_specification]
#[verifier::external_body]
pub struct ExImage(Image);

/// The shape of a texture.
#[derive(Clone, Copy, Debug, PartialEq, Eq, Structural)]
pub enum TextureLayout {
    D1,
    D2,
    D3,
}

/// The pixel format of a texture: four 8-bit channels, red, green, blue and
/// alpha, in sRGB.
#[derive(Clone, Copy, Debug, PartialEq, Eq, Structural)]
pub enum PixelFormat {
    Rgba8UnormSrgb,
}

/// How a texture is sampled outside its edges.
#[derive(Clone, Copy, Debug, PartialEq, Eq, Structural)]
pub enum AddressMode {
    ClampToEdge,
    Repeat,
    MirrorRepeat,
    ClampToBorder,
}

/// How texels are mixed when a texture is sampled between them.
#[derive(Clone, Copy, Debug, PartialEq, Eq, Structural)]
pub enum FilterMode {
    Nearest,
    Linear,
}

/// How an image is sampled: its address modes along u and v and its
/// magnification filter, over linear filtering otherwise.
#[derive(Clone, Copy, Debug, PartialEq, Eq, Structural)]
pub struct UvSampling {
    pub address_mode_u: AddressMode,
    pub address_mode_v: AddressMode,
    pub mag_filter: FilterMode,
}

/// The pixel bytes that an image holds: its `data`, and no bytes where it
/// has none.
pub uninterp spec fn image_bytes(image: Image) -> Seq<u8>;

/// The width, height and depth (or number of array layers) of an image, in
/// pixels: its texture descriptor's size.
pub uninterp spec fn image_extent(image: Image) -> (u32, u32, u32);

/// The shape of an image: its texture descriptor's dimension.
pub uninterp spec fn image_layout(image: Image) -> TextureLayout;

/// The pixel format of an image: its texture descriptor's format.
pub uninterp spec fn image_format(image: Image) -> PixelFormat;

/// The bits of an image's render asset usages.
pub uninterp spec fn image_usage_bits(image: Image) -> u8;

/// How an image is sampled: `Some(s)` where its sampler is a descriptor
/// equal to `ImageSamplerDescriptor::linear()` with the u and v address
/// modes and the magnification filter of `s`; `None` for any other sampler.
pub uninterp spec fn image_sampling(image: Image) -> Option<UvSampling>;

/// The texture usage bits, mip level count and sample count of an image's
/// texture descriptor.
pub uninterp spec fn image_gpu_settings(image: Image) -> (u32, u32, u32);

/// Whether the rest of an image is as a new image has it: no texture label,
/// no view formats, layer-major data order, no texture view descriptor, and
/// not copied on resize.
pub uninterp spec fn image_extras_cleared(image: Image) -> bool;

/// Texture usage bits of a new image: copy source, copy destination and
/// texture binding.
pub const NEW_IMAGE_TEXTURE_USAGES: u32 = 7;

/// Bytes per pixel of a pixel format.
pub open spec fn pixel_format_bytes(format: PixelFormat) -> nat {
    match format {
        PixelFormat::Rgba8UnormSrgb => 4,
    }
}

/// `len` bytes made by repeating `pixel` (none where `pixel` is empty).
pub open spec fn filled_bytes(pixel: Seq<u8>, len: nat) -> Seq<u8> {
    if pixel.len() == 0 {
        Seq::empty()
    } else {
        Seq::new(len, |i: int| pixel[i % (pixel.len() as int)])
    }
}

/// `Image::new_fill`: an image of `width` x `height` x `depth_or_array_layers`
/// pixels of the given layout and format, with the render asset usages of
/// `usage_bits` (`RenderAssetUsages::from_bits_retain`), whose data is
/// `pixel` repeated to fill it. The `requires` leaves out the sizes on which
/// the bevy code overflows or asserts (the pixel data must be whole pixels
/// and fit into the image). Claimed of the bevy code: the image's bytes are
/// `pixel` cycled to the pixel size times the number of pixels; its size,
/// layout, format and usage bits are the arguments; its sampler is the
/// default one, not a descriptor; its texture usages are copy source, copy
/// destination and texture binding, with one mip level and one sample; and
/// the rest is as `image_extras_cleared` says.
#[verifier::external_body]
fn image_new_fill(
    width: u32,
    height: u32,
    depth_or_array_layers: u32,
    layout: TextureLayout,
    pixel: &[u8],
    format: PixelFormat,
    usage_bits: u8,
) -> (image: Image)
    requires
        width * height <= u32::MAX,
        width * height * depth_or_array_layers <= u32::MAX,
        4 * width * height * depth_or_array_layers <= usize::MAX,
        pixel@.len() % 4 == 0,
        pixel@.len() <= 4 * width * height * depth_or_array_layers,
    ensures
        image_bytes(image) == filled_bytes(
            pixel@,
            pixel_format_bytes(format) * (width as nat) * (height as nat) * (depth_or_array_layers as nat),
        ),
        image_extent(image) == (width, height, depth_or_array_layers),
        image_layout(image) == layout,
        image_format(image) == format,
        image_usage_bits(image) == usage_bits,
        image_sampling(image) == None::<UvSampling>,
        image_gpu_settings(image) == (NEW_IMAGE_TEXTURE_USAGES, 1u32, 1u32),
        image_extras_cleared(image),
{
    let size = Extent3d { width, height, depth_or_array_layers };
    let dimension = match layout {
        TextureLayout::D1 => TextureDimension::D1,
        TextureLayout::D2 => TextureDimension::D2,
        TextureLayout::D3 => TextureDimension::D3,
    };
    let format = match format {
        PixelFormat::Rgba8UnormSrgb => TextureFormat::Rgba8UnormSrgb,
    };
    Image::new_fill(size, dimension, pixel, format, RenderAssetUsages::from_bits_retain(usage_bits))
}

/// Sets the `sampler` field of an image to `ImageSamplerDescriptor::linear()`
/// with the address modes and magnification filter of `sampling` (each
/// converted to bevy's variant of the same name). Claimed of the bevy code:
/// the image is then sampled as `sampling` says, and keeps everything else,
/// as no other field is written.
#[verifier::external_body]
fn set_image_sampler(image: &mut Image, sampling: UvSampling)
    ensures
        image_sampling(*final(image)) == Some(sampling),
        image_bytes(*final(image)) == image_bytes(*old(image)),
        image_extent(*final(image)) == image_extent(*old(image)),
        image_layout(*final(image)) == image_layout(*old(image)),
        image_format(*final(image)) == image_format(*old(image)),
        image_usage_bits(*final(image)) == image_usage_bits(*old(image)),
        image_gpu_settings(*final(image)) == image_gpu_settings(*old(image)),
        image_extras_cleared(*final(image)) == image_extras_cleared(*old(image)),
{
    let mode = |m: AddressMode| match m {
        AddressMode::ClampToEdge => ImageAddressMode::ClampToEdge,
        AddressMode::Repeat => ImageAddressMode::Repeat,
        AddressMode::MirrorRepeat => ImageAddressMode::MirrorRepeat,
        AddressMode::ClampToBorder => ImageAddressMode::ClampToBorder,
    };
    let mag_filter = match sampling.mag_filter {
        FilterMode::Nearest => ImageFilterMode::Nearest,
        FilterMode::Linear => ImageFilterMode::Linear,
    };
    let (address_mode_u, address_mode_v) = (mode(sampling.address_mode_u), mode(sampling.address_mode_v));
    let linear = ImageSamplerDescriptor::linear();
    image.sampler = ImageSampler::Descriptor(ImageSamplerDescriptor { address_mode_u, address_mode_v, mag_filter, ..linear });
}

/// `image` is the UV debug texture: its bytes, size, layout, format, usage,
/// sampling and every other setting are those `uv_debug_texture` gives.
pub open spec fn is_uv_debug_image(image: Image) -> bool {
    &&& image_bytes(image).len() == TEXTURE_BYTES
    &&& forall|i: int| 0 <= i < TEXTURE_BYTES ==> #[trigger] image_bytes(image)[i] == uv_texel(i)
    &&& image_extent(image) == (7u32, 7u32, 1u32)
    &&& image_layout(image) == TextureLayout::D2
    &&& image_format(image) == PixelFormat::Rgba8UnormSrgb
    &&& image_usage_bits(image) == RENDER_WORLD_BIT
    &&& image_sampling(image) == Some(
        UvSampling {
            address_mode_u: AddressMode::Repeat,
            address_mode_v: AddressMode::MirrorRepeat,
            mag_filter: FilterMode::Nearest,
        },
    )
    &&& image_gpu_settings(image) == (NEW_IMAGE_TEXTURE_USAGES, 1u32, 1u32)
    &&& image_extras_cleared(image)
}

/// Any two UV debug textures agree in their bytes, size, layout, format,
/// usage, sampling and all other settings: every call gives the same image.
pub proof fn lemma_uv_debug_images_agree(a: Image, b: Image)
    requires
        is_uv_debug_image(a),
        is_uv_debug_image(b),
    ensures
        image_bytes(a) == image_bytes(b),
        image_extent(a) == image_extent(b),
        image_layout(a) == image_layout(b),
        image_format(a) == image_format(b),
        image_usage_bits(a) == image_usage_bits(b),
        image_sampling(a) == image_sampling(b),
        image_gpu_settings(a) == image_gpu_settings(b),
        image_extras_cleared(a) == image_extras_cleared(b),
{
    assert(image_bytes(a) =~= image_bytes(b));
}

impl UvDebug {
    /// The sampling of the UV debug texture: repeated along u, mirrored
    /// along v, magnified to the nearest texel.
    pub fn uv_debug_sampling() -> (sampling: UvSampling)
        ensures
            sampling == (UvSampling {
                address_mode_u: AddressMode::Repeat,
                address_mode_v: AddressMode::MirrorRepeat,
                mag_filter: FilterMode::Nearest,
            }),
    {
        UvSampling {
            address_mode_u: AddressMode::Repeat,
            address_mode_v: AddressMode::MirrorRepeat,
            mag_filter: FilterMode::Nearest,
        }
    }

    /// The UV debug texture as a bevy image: 7x7x1 pixels in 2D, RGBA sRGB,
    /// filled with `uv_debug_texture_data`, kept in the render world only,
    /// sampled as `uv_debug_sampling` says over linear filtering.
    pub fn uv_debug_texture() -> (image: Image)
        ensures
            image_bytes(image).len() == TEXTURE_BYTES,
            forall|i: int| 0 <= i < TEXTURE_BYTES ==> #[trigger] image_bytes(image)[i] == uv_texel(i),
            image_extent(image) == (7u32, 7u32, 1u32),
            image_layout(image) == TextureLayout::D2,
            image_format(image) == PixelFormat::Rgba8UnormSrgb,
            image_usage_bits(image) == RENDER_WORLD_BIT,
            image_sampling(image) == Some(
                UvSampling {
                    address_mode_u: AddressMode::Repeat,
                    address_mode_v: AddressMode::MirrorRepeat,
                    mag_filter: FilterMode::Nearest,
                },
            ),
            image_gpu_settings(image) == (NEW_IMAGE_TEXTURE_USAGES, 1u32, 1u32),
            image_extras_cleared(image),
            is_uv_debug_image(image),
    {
        let data = UvDebug::uv_debug_texture_data();
        let usage_bits = AssetUsages::render_world_only().bits();
        let size = TEXTURE_SIZE as u32;
        let mut image = image_new_fill(size, size, 1, TextureLayout::D2, data.as_slice(), PixelFormat::Rgba8UnormSrgb, usage_bits);
        set_image_sampler(&mut image, UvDebug::uv_debug_sampling());
        proof {
            let bytes = image_bytes(image);
            assert(bytes == filled_bytes(data@, 196));
            assert forall|i: int| 0 <= i < TEXTURE_BYTES implies #[trigger] bytes[i] == uv_texel(i) by {
                assert(i % 196 == i);
            }
        }
        image
    }
}

} // verus!
