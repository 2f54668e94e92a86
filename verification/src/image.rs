//! Image sources, their decoding, and the cache of decoded pixels.
//!
//! A raster buffer is decoded to four bytes per pixel the first time it is
//! drawn. The [`ImageCache`] keeps the decoded bytes under the identity of the
//! buffer they came from, not under their content: a buffer with a known
//! identity is never decoded again, whatever it holds, until the cache is
//! cleared.

use std::collections::HashMap;
use std::sync::Arc;
use vstd::prelude::*;
use vstd::slice::slice_to_vec;
use crate::fixed::Fixed;
use crate::geometry::{IntRect, Point, Size};
use crate::scene::share_bytes;
use crate::scene::{ImageAlphaType, ImageData, ImageDataView};

verus! {

broadcast use vstd::std_specs::hash::group_hash_axioms;

/// The layout of the pixels of a raster buffer.
#[derive(Clone, Copy, Debug, PartialEq, Eq, Structural)]
pub enum PixelFormat {
    /// Three bytes per pixel: red, green, blue.
    Rgb8,
    /// Four bytes per pixel, with an alpha that is not premultiplied.
    Rgba8,
    /// Four bytes per pixel, with the colors already multiplied by alpha.
    Rgba8Premultiplied,
}

/// A raster buffer of an image. `id` is the identity of the storage that
/// holds the pixels: two buffers with the same `id` count as the same image.
/// A buffer is valid if it holds the bytes of exactly its pixels
/// ([`SharedImageBuffer::is_valid`]); the renderer takes any buffer, and what
/// it decodes from a valid one has four bytes for every pixel.
#[derive(Clone, Copy, Debug, PartialEq)]
pub struct SharedImageBuffer<'a> {
    pub id: usize,
    pub format: PixelFormat,
    pub width: u32,
    pub height: u32,
    pub bytes: &'a [u8],
}

/// The number of bytes that a pixel takes in a raster buffer.
pub open spec fn bytes_per_pixel(format: PixelFormat) -> nat {
    match format {
        PixelFormat::Rgb8 => 3,
        PixelFormat::Rgba8 => 4,
        PixelFormat::Rgba8Premultiplied => 4,
    }
}

impl<'a> SharedImageBuffer<'a> {
    /// Whether the buffer holds the bytes of exactly its pixels: as many
    /// bytes as its format takes for its width times its height.
    pub open spec fn spec_is_valid(self) -> bool {
        self.bytes@.len() == self.width * self.height * bytes_per_pixel(self.format)
    }

    /// Whether the buffer holds the bytes of exactly its pixels.
    #[verifier::when_used_as_spec(spec_is_valid)]
    pub fn is_valid(self) -> (r: bool)
        ensures
            r == self.spec_is_valid(),
    {
        let per_pixel: u128 = match self.format {
            PixelFormat::Rgb8 => 3,
            PixelFormat::Rgba8 => 4,
            PixelFormat::Rgba8Premultiplied => 4,
        };
        assert(self.width * self.height <= 0xffff_ffff * 0xffff_ffff) by (nonlinear_arith)
            requires
                0 <= self.width <= 0xffff_ffff,
                0 <= self.height <= 0xffff_ffff,
        ;
        let pixels: u128 = (self.width as u128) * (self.height as u128);
        self.bytes.len() as u128 == pixels * per_pixel
    }
}

/// A width and a height in whole pixels.
#[derive(Clone, Copy, Debug, PartialEq, Eq, Structural)]
pub struct IntSize {
    pub width: u32,
    pub height: u32,
}

/// Pixels of four bytes each that were read back from elsewhere.
#[derive(Clone, Debug, PartialEq)]
pub struct RawPixels {
    pub width: u32,
    pub height: u32,
    pub data: Vec<u8>,
}

/// Where an image was fitted into a target: the part of the source that
/// shows, the factors from source pixels to target pixels, and the place and
/// size of the result in the target, in physical pixels.
#[derive(Clone, Copy, Debug, PartialEq, Eq, Structural)]
pub struct FitResult {
    pub clip_rect: IntRect,
    pub source_to_target_x: Fixed,
    pub source_to_target_y: Fixed,
    pub size: Size,
    pub offset: Point,
}

/// The pixels behind an image item.
#[derive(Clone, Debug, PartialEq)]
pub enum ImageSource<'a> {
    /// No image.
    Empty,
    /// A raster buffer held in memory.
    EmbeddedImage(SharedImageBuffer<'a>),
    /// A texture prepared ahead of time: four bytes per pixel, premultiplied.
    StaticTextures { size: IntSize, data: &'a [u8] },
    /// An image cut in nine by border insets. `inner` is the raster buffer of
    /// the image that is cut, if it has one; `fits` are the fitted slices.
    NineSlice { inner: Option<SharedImageBuffer<'a>>, fits: &'a [FitResult] },
    /// A vector image. `fit` is its fitting at full size; `raster` is what
    /// rasterizing it at the size of [`svg_target_size`] gave, if that
    /// worked.
    Svg { size: IntSize, fit: FitResult, raster: Option<SharedImageBuffer<'a>> },
    /// A texture that lives on the GPU. `readback` is what reading it back
    /// gave, if anything.
    WGPUTexture { readback: Option<RawPixels> },
    /// An image owned by the platform. `pixels` is what drawing it offscreen
    /// and reading that back gave, if its size is known.
    HTMLImage { pixels: Option<RawPixels> },
    /// An image kept by another backend; not drawn.
    BackendStorage,
    /// A texture borrowed from another graphics API; not drawn.
    BorrowedOpenGLTexture,
}

/// Three bytes per pixel widened to four, with full alpha.
pub open spec fn rgba_from_rgb(rgb: Seq<u8>) -> Seq<u8> {
    Seq::new(
        ((rgb.len() / 3) * 4) as nat,
        |i: int|
            if i % 4 == 3 {
                255u8
            } else {
                rgb[(i / 4) * 3 + i % 4]
            },
    )
}

/// The bytes of a buffer as four bytes per pixel.
pub open spec fn decoded_bytes(format: PixelFormat, bytes: Seq<u8>) -> Seq<u8> {
    match format {
        PixelFormat::Rgb8 => rgba_from_rgb(bytes),
        PixelFormat::Rgba8 => bytes,
        PixelFormat::Rgba8Premultiplied => bytes,
    }
}

/// How the decoded pixels of a buffer relate to their alpha.
pub open spec fn alpha_type_of(format: PixelFormat) -> ImageAlphaType {
    match format {
        PixelFormat::Rgb8 => ImageAlphaType::Alpha,
        PixelFormat::Rgba8 => ImageAlphaType::Alpha,
        PixelFormat::Rgba8Premultiplied => ImageAlphaType::AlphaPremultiplied,
    }
}

/// The decoded image of a buffer.
pub open spec fn decoded_image(buffer: SharedImageBuffer) -> ImageDataView {
    ImageDataView {
        data: decoded_bytes(buffer.format, buffer.bytes@),
        alpha_type: alpha_type_of(buffer.format),
        width: buffer.width,
        height: buffer.height,
    }
}

/// The image of pixels that were read back: premultiplied, as they are.
pub open spec fn raw_image(pixels: RawPixels) -> ImageDataView {
    ImageDataView {
        data: pixels.data@,
        alpha_type: ImageAlphaType::AlphaPremultiplied,
        width: pixels.width,
        height: pixels.height,
    }
}

/// Widens three bytes per pixel to four, with full alpha. Bytes after the
/// last whole pixel are left out.
pub fn rgb_to_rgba(rgb: &[u8]) -> (rgba: Vec<u8>)
    ensures
        rgba@ == rgba_from_rgb(rgb@),
{
    let pixels: usize = rgb.len() / 3;
    let mut rgba: Vec<u8> = Vec::new();
    let mut p: usize = 0;
    while p < pixels
        invariant
            pixels == rgb@.len() / 3,
            rgb@.len() <= usize::MAX,
            p <= pixels,
            rgba@.len() == 4 * p,
            forall|i: int|
                0 <= i < 4 * p ==> #[trigger] rgba@[i] == if i % 4 == 3 {
                    255u8
                } else {
                    rgb@[(i / 4) * 3 + i % 4]
                },
        decreases pixels - p,
    {
        assert(3 * p + 3 <= rgb@.len());
        rgba.push(rgb[3 * p]);
        rgba.push(rgb[3 * p + 1]);
        rgba.push(rgb[3 * p + 2]);
        rgba.push(255);
        p += 1;
    }
    assert(rgba@ =~= rgba_from_rgb(rgb@));
    rgba
}

/// The bytes of a buffer as four bytes per pixel.
pub fn decode_bytes(format: PixelFormat, bytes: &[u8]) -> (decoded: Vec<u8>)
    ensures
        decoded@ == decoded_bytes(format, bytes@),
{
    match format {
        PixelFormat::Rgb8 => rgb_to_rgba(bytes),
        PixelFormat::Rgba8 => slice_to_vec(bytes),
        PixelFormat::Rgba8Premultiplied => slice_to_vec(bytes),
    }
}

/// How the decoded pixels of a buffer relate to their alpha.
pub fn alpha_type_for(format: PixelFormat) -> (alpha_type: ImageAlphaType)
    ensures
        alpha_type == alpha_type_of(format),
{
    match format {
        PixelFormat::Rgb8 => ImageAlphaType::Alpha,
        PixelFormat::Rgba8 => ImageAlphaType::Alpha,
        PixelFormat::Rgba8Premultiplied => ImageAlphaType::AlphaPremultiplied,
    }
}

/// The size in whole pixels at which a vector image of `size` is rasterized
/// for a fit: each extent times its factor, rounded down.
pub open spec fn spec_svg_target_size(size: IntSize, fit: FitResult) -> IntSize {
    IntSize {
        width: Fixed::spec_from_int(size.width as int).spec_mul(
            fit.source_to_target_x,
        ).spec_to_u32(),
        height: Fixed::spec_from_int(size.height as int).spec_mul(
            fit.source_to_target_y,
        ).spec_to_u32(),
    }
}

/// The size in whole pixels at which a vector image of `size` is rasterized
/// for a fit.
#[verifier::when_used_as_spec(spec_svg_target_size)]
pub fn svg_target_size(size: IntSize, fit: FitResult) -> (target: IntSize)
    ensures
        target == spec_svg_target_size(size, fit),
{
    IntSize {
        width: Fixed::from_u32(size.width).mul(fit.source_to_target_x).to_u32(),
        height: Fixed::from_u32(size.height).mul(fit.source_to_target_y).to_u32(),
    }
}

/// What a cache holds after the draw of a buffer: what it held, and the
/// decoded bytes of the buffer if its identity was not known.
pub open spec fn cache_after(cache: Map<usize, Seq<u8>>, buffer: SharedImageBuffer) -> Map<
    usize,
    Seq<u8>,
> {
    if cache.contains_key(buffer.id) {
        cache
    } else {
        cache.insert(buffer.id, decoded_bytes(buffer.format, buffer.bytes@))
    }
}

/// The image that a cache hands out for a buffer: the bytes that it holds
/// under the identity of the buffer if there are any, else the decoded bytes
/// of the buffer; in both cases with the format and the size of the buffer.
pub open spec fn cache_image(cache: Map<usize, Seq<u8>>, buffer: SharedImageBuffer)
    -> ImageDataView {
    ImageDataView {
        data: if cache.contains_key(buffer.id) {
            cache[buffer.id]
        } else {
            decoded_bytes(buffer.format, buffer.bytes@)
        },
        alpha_type: alpha_type_of(buffer.format),
        width: buffer.width,
        height: buffer.height,
    }
}

/// Decoded pixels by the identity of the buffer they were decoded from.
pub struct ImageCache {
    entries: HashMap<usize, Arc<Vec<u8>>>,
}

impl View for ImageCache {
    type V = Map<usize, Seq<u8>>;

    closed spec fn view(&self) -> Map<usize, Seq<u8>> {
        Map::new(|id: usize| self.entries@.contains_key(id), |id: usize| (*self.entries@[id])@)
    }
}

impl ImageCache {
    /// A cache that holds nothing.
    pub fn new() -> (cache: ImageCache)
        ensures
            cache@ == Map::<usize, Seq<u8>>::empty(),
    {
        let cache = ImageCache { entries: HashMap::new() };
        assert(cache@ =~= Map::<usize, Seq<u8>>::empty());
        cache
    }

    /// Drops every entry.
    pub fn clear(&mut self)
        ensures
            final(self)@ == Map::<usize, Seq<u8>>::empty(),
    {
        self.entries.clear();
        assert(self@ =~= Map::<usize, Seq<u8>>::empty());
    }

    /// The number of entries.
    pub fn len(&self) -> (n: usize)
        ensures
            n == self@.len(),
    {
        proof {
            assert(self@.dom() =~= self.entries@.dom());
        }
        self.entries.len()
    }

    /// Whether there are decoded pixels for the identity `id`.
    pub fn contains(&self, id: usize) -> (r: bool)
        ensures
            r == self@.contains_key(id),
    {
        self.entries.contains_key(&id)
    }

    /// The decoded pixels of a buffer: those that the cache holds under the
    /// identity of the buffer, or else newly decoded ones, which the cache
    /// then holds. The second value tells whether they were newly decoded.
    pub fn get_or_create(&mut self, buffer: &SharedImageBuffer) -> (r: (ImageData, bool))
        ensures
            r.0@ == cache_image(old(self)@, *buffer),
            r.1 == !old(self)@.contains_key(buffer.id),
            final(self)@ == cache_after(old(self)@, *buffer),
            r.1 && buffer.spec_is_valid() ==> r.0@.is_valid(),
    {
        proof {
            if buffer.spec_is_valid() {
                lemma_decoded_image_is_valid(*buffer);
            }
        }
        let alpha_type = alpha_type_for(buffer.format);
        let found: Option<Arc<Vec<u8>>> = match self.entries.get(&buffer.id) {
            Some(data) => Some(share_bytes(data)),
            None => None,
        };
        match found {
            Some(data) => {
                let image = ImageData {
                    data,
                    alpha_type,
                    width: buffer.width,
                    height: buffer.height,
                };
                (image, false)
            },
            None => {
                let data = Arc::new(decode_bytes(buffer.format, buffer.bytes));
                self.entries.insert(buffer.id, share_bytes(&data));
                assert(self@ =~= cache_after(old(self)@, *buffer));
                let image = ImageData {
                    data,
                    alpha_type,
                    width: buffer.width,
                    height: buffer.height,
                };
                (image, true)
            },
        }
    }
}

/// The decoded image of a buffer that holds the bytes of exactly its pixels
/// holds four bytes for each of them.
pub proof fn lemma_decoded_image_is_valid(buffer: SharedImageBuffer)
    requires
        buffer.spec_is_valid(),
    ensures
        decoded_image(buffer).is_valid(),
        decoded_bytes(buffer.format, buffer.bytes@).len() == 4 * buffer.width * buffer.height,
{
    let w = buffer.width as int;
    let h = buffer.height as int;
    let pixels = w * h;
    assert(4 * w * h == 4 * pixels) by (nonlinear_arith)
        requires
            pixels == w * h,
    ;
    if buffer.format == PixelFormat::Rgb8 {
        assert(buffer.bytes@.len() == pixels * 3);
        assert((pixels * 3) / 3 == pixels);
        assert(rgba_from_rgb(buffer.bytes@).len() == pixels * 4);
    } else {
        assert(buffer.bytes@.len() == pixels * 4);
    }
}

/// Two draws of buffers with one identity get the same pixels, those of the
/// first draw, whatever the second buffer holds; the first draw decodes and
/// the second does not.
pub proof fn lemma_cache_returns_first_decoding(
    cache: Map<usize, Seq<u8>>,
    first: SharedImageBuffer,
    second: SharedImageBuffer,
)
    requires
        first.id == second.id,
    ensures
        cache_image(cache_after(cache, first), second).data == cache_image(cache, first).data,
        cache_after(cache_after(cache, first), second) == cache_after(cache, first),
        cache_after(cache, first).contains_key(second.id),
{
}

/// After the cache was cleared, the next draw of any buffer decodes it anew.
pub proof fn lemma_cleared_cache_decodes_anew(buffer: SharedImageBuffer)
    ensures
        !Map::<usize, Seq<u8>>::empty().contains_key(buffer.id),
        cache_image(Map::<usize, Seq<u8>>::empty(), buffer) == decoded_image(buffer),
{
}

/// Buffers with different identities are kept apart, also where they hold
/// the same bytes.
pub proof fn lemma_cache_keeps_identities_apart(
    cache: Map<usize, Seq<u8>>,
    first: SharedImageBuffer,
    second: SharedImageBuffer,
)
    requires
        first.id != second.id,
        !cache.contains_key(second.id),
    ensures
        !cache_after(cache, first).contains_key(second.id),
{
}

} // verus!
