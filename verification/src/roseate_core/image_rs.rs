//! The image-rs decoding backend: decodes encoded images with the `image` crate's
//! decoders and resizes their pixels, with the decisions and errors around them.
use std::io::Cursor;
use image::codecs::{gif::GifDecoder, jpeg::JpegDecoder, png::PngDecoder, tiff::TiffDecoder, webp::WebPDecoder};
use image::imageops::{resize, FilterType};
use image::{AnimationDecoder, GrayAlphaImage, GrayImage, ImageDecoder, RgbImage, RgbaImage};
use vstd::prelude::*;
use crate::roseate_core::backends::{
    DecoderKind, bytes_view, decoder_for_format, decoder_of_format, decodes_as_animation,
    get_decoded_image_metadata, shows_exif,
};
use crate::roseate_core::colour_type::{
    ColorTypeKind, ImageColourType, bytes_per_pixel, channels, colour_type_of_kind, is_eight_bit,
};
use crate::roseate_core::decoded_image::{DecodedImage, DecodedImageContent, FrameDelay};
use crate::roseate_core::error::Error;
use crate::roseate_core::format::{ImageFormat, format_text};
use crate::roseate_core::image_info::ImageSize;
use crate::roseate_core::metadata::opt_view;
use crate::roseate_core::modifications::ImageModification;
use crate::roseate_core::reader::{ImageReader, ImageReaderData};

verus! {

#[verifier::external_type_specification]
#[verifier::external_body]
pub struct ExColorType(image::ColorType);

/// The library's name for an `image::ColorType`, read off its variant one for one
/// (`Other` for a variant the crate may add).
#[verifier::external_body]
fn colour_type_kind(colour_type: image::ColorType) -> ColorTypeKind {
    match colour_type {
        image::ColorType::L8 => ColorTypeKind::L8,
        image::ColorType::La8 => ColorTypeKind::La8,
        image::ColorType::Rgb8 => ColorTypeKind::Rgb8,
        image::ColorType::Rgba8 => ColorTypeKind::Rgba8,
        image::ColorType::L16 => ColorTypeKind::L16,
        image::ColorType::La16 => ColorTypeKind::La16,
        image::ColorType::Rgb16 => ColorTypeKind::Rgb16,
        image::ColorType::Rgba16 => ColorTypeKind::Rgba16,
        image::ColorType::Rgb32F => ColorTypeKind::Rgb32F,
        image::ColorType::Rgba32F => ColorTypeKind::Rgba32F,
        _ => ColorTypeKind::Other,
    }
}

/// A decoder's size (`ImageDecoder::dimensions`) and colour type, then its pixels read
/// into a buffer of `ImageDecoder::total_bytes` bytes (`ImageDecoder::read_image`), or the
/// text of the read's error.
#[verifier::external_body]
fn read_still<D: ImageDecoder>(decoder: D) -> ((u32, u32), ColorTypeKind, Result<Vec<u8>, String>) {
    let size = decoder.dimensions();
    let colour_type = colour_type_kind(decoder.color_type());
    let mut pixels = vec![0; decoder.total_bytes() as usize];
    let read = decoder.read_image(&mut pixels).map(|_| pixels).map_err(|error| error.to_string());
    (size, colour_type, read)
}

/// Every frame of an animation (`AnimationDecoder::into_frames`, then
/// `Frames::collect_frames`), each as its RGBA pixels (`Frame::into_buffer`) with their size
/// and the frame's delay (`Delay::numer_denom_ms`), or the text of the first frame's error.
#[verifier::external_body]
fn read_frames<'a, A: AnimationDecoder<'a>>(decoder: A) -> Result<Vec<(Vec<u8>, (u32, u32), FrameDelay)>, String> {
    let frames = decoder.into_frames().collect_frames().map_err(|error| error.to_string())?;
    Ok(frames.into_iter().map(|frame| {
        let (numerator, denominator) = frame.delay().numer_denom_ms();
        let buffer = frame.into_buffer();
        let size = buffer.dimensions();
        (buffer.into_raw(), size, FrameDelay { numerator, denominator })
    }).collect())
}

/// The text of the error with which making the decoder of `kind` on `bytes` fails
/// (`PngDecoder::new` and the others), or `None` when it succeeds.
pub uninterp spec fn decoder_init_error_of(bytes: Seq<u8>, kind: DecoderKind) -> Option<Seq<char>>;

/// The Exif chunk the decoder of `kind` finds in `bytes` (`ImageDecoder::exif_metadata`),
/// or the text of the error of making the decoder or of reading the chunk.
pub uninterp spec fn exif_chunk_of(bytes: Seq<u8>, kind: DecoderKind) -> Result<Option<Seq<u8>>, Seq<char>>;

/// Whether the PNG or WebP decoder reports `bytes` as animated (`PngDecoder::is_apng`,
/// `WebPDecoder::has_animation`), or the text of the error of making the decoder or of
/// checking.
pub uninterp spec fn reports_animation_of(bytes: Seq<u8>, kind: DecoderKind) -> Result<bool, Seq<char>>;

/// The size, colour type and pixels (or the pixel read's error text) the decoder of `kind`
/// reads from `bytes` as a still image, or the text of the error of making the decoder.
pub uninterp spec fn still_image_of(bytes: Seq<u8>, kind: DecoderKind) -> Result<
    ((u32, u32), ColorTypeKind, Result<Seq<u8>, Seq<char>>),
    Seq<char>,
>;

/// The frames the animation decoder of `kind` reads from `bytes` (each frame's RGBA pixels,
/// size and delay), or the text of the error of making the decoder or of a frame.
pub uninterp spec fn frames_of(bytes: Seq<u8>, kind: DecoderKind) -> Result<
    Seq<(Seq<u8>, (u32, u32), FrameDelay)>,
    Seq<char>,
>;

/// The pixels of the `size` image `pixels` holds in the 8-bit `colour` type, resized to
/// `target` with image-rs's Lanczos filter (`imageops::resize`).
pub uninterp spec fn resized_of(
    pixels: Seq<u8>,
    size: (u32, u32),
    colour: ImageColourType,
    target: (u32, u32),
) -> Seq<u8>;

/// The view of a result that is a text on failure.
pub open spec fn text_error_view<T>(result: Result<T, String>) -> Result<T, Seq<char>> {
    match result {
        Ok(value) => Ok(value),
        Err(error) => Err(error@),
    }
}

/// The view of a found Exif chunk.
pub open spec fn exif_chunk_view(chunk: Result<Option<Vec<u8>>, String>) -> Result<Option<Seq<u8>>, Seq<char>> {
    match chunk {
        Ok(chunk) => Ok(bytes_view(chunk)),
        Err(error) => Err(error@),
    }
}

/// The view of a still image read by a decoder.
pub open spec fn still_view(
    still: Result<((u32, u32), ColorTypeKind, Result<Vec<u8>, String>), String>,
) -> Result<((u32, u32), ColorTypeKind, Result<Seq<u8>, Seq<char>>), Seq<char>> {
    match still {
        Ok((size, colour, Ok(pixels))) => Ok((size, colour, Ok(pixels@))),
        Ok((size, colour, Err(error))) => Ok((size, colour, Err(error@))),
        Err(error) => Err(error@),
    }
}

/// The view of decoded frames: each frame's pixels, size and delay.
pub open spec fn frame_seq_view(frames: Seq<(Vec<u8>, (u32, u32), FrameDelay)>) -> Seq<(Seq<u8>, (u32, u32), FrameDelay)> {
    frames.map_values(|frame: (Vec<u8>, (u32, u32), FrameDelay)| (frame.0@, frame.1, frame.2))
}

/// The view of the frames read by an animation decoder.
pub open spec fn frames_view(
    frames: Result<Vec<(Vec<u8>, (u32, u32), FrameDelay)>, String>,
) -> Result<Seq<(Seq<u8>, (u32, u32), FrameDelay)>, Seq<char>> {
    match frames {
        Ok(frames) => Ok(frame_seq_view(frames@)),
        Err(error) => Err(error@),
    }
}

/// Makes the decoder of `kind` on `bytes` (`PngDecoder::new` and the others), keeping only
/// its error's text; the result is named `decoder_init_error_of`.
#[verifier::external_body]
fn decoder_init_error(bytes: &[u8], kind: DecoderKind) -> (error: Option<String>)
    ensures
        opt_view(error) == decoder_init_error_of(bytes@, kind),
{
    let reader = Cursor::new(bytes);
    match kind {
        DecoderKind::Png => PngDecoder::new(reader).err(),
        DecoderKind::Jpeg => JpegDecoder::new(reader).err(),
        DecoderKind::Webp => WebPDecoder::new(reader).err(),
        DecoderKind::Gif => GifDecoder::new(reader).err(),
        DecoderKind::Tiff => TiffDecoder::new(reader).err(),
    }.map(|error| error.to_string())
}

/// The Exif chunk of `bytes` as the decoder of `kind` finds it
/// (`ImageDecoder::exif_metadata`); the result is named `exif_chunk_of`.
#[verifier::external_body]
fn read_exif_chunk(bytes: &[u8], kind: DecoderKind) -> (chunk: Result<Option<Vec<u8>>, String>)
    ensures
        exif_chunk_view(chunk) == exif_chunk_of(bytes@, kind),
{
    let reader = Cursor::new(bytes);
    match kind {
        DecoderKind::Png => PngDecoder::new(reader).and_then(|mut decoder| decoder.exif_metadata()),
        DecoderKind::Jpeg => JpegDecoder::new(reader).and_then(|mut decoder| decoder.exif_metadata()),
        DecoderKind::Webp => WebPDecoder::new(reader).and_then(|mut decoder| decoder.exif_metadata()),
        DecoderKind::Gif => GifDecoder::new(reader).and_then(|mut decoder| decoder.exif_metadata()),
        DecoderKind::Tiff => TiffDecoder::new(reader).and_then(|mut decoder| decoder.exif_metadata()),
    }.map_err(|error| error.to_string())
}

/// Whether the PNG (`PngDecoder::is_apng`) or WebP (`WebPDecoder::has_animation`) decoder
/// reports `bytes` as animated; the result is named `reports_animation_of`.
#[verifier::external_body]
fn read_reports_animation(bytes: &[u8], kind: DecoderKind) -> (reports: Result<bool, String>)
    requires
        kind is Png || kind is Webp,
    ensures
        text_error_view(reports) == reports_animation_of(bytes@, kind),
{
    let reader = Cursor::new(bytes);
    match kind {
        DecoderKind::Png => PngDecoder::new(reader).and_then(|decoder| decoder.is_apng()),
        _ => WebPDecoder::new(reader).map(|decoder| decoder.has_animation()),
    }.map_err(|error| error.to_string())
}

/// Reads `bytes` as a still image with the decoder of `kind`; the result is named
/// `still_image_of`. Pixels that were read fill the buffer `ImageDecoder::read_image` is
/// handed, of `ImageDecoder::total_bytes` (size times bytes per pixel) bytes. Left unsaid:
/// an image whose buffer cannot be allocated stops the process, and where that size does
/// not fit `usize` (a 32-bit target) the PNG, WebP and TIFF decoders' length check panics,
/// as in any program that allocates a decoder's buffer this way.
#[verifier::external_body]
pub(crate) fn decode_still(bytes: &[u8], kind: DecoderKind) -> (still: Result<((u32, u32), ColorTypeKind, Result<Vec<u8>, String>), String>)
    requires
        !(kind is Gif),
    ensures
        still_view(still) == still_image_of(bytes@, kind),
        still matches Ok((size, colour, Ok(pixels))) ==> colour != ColorTypeKind::Other
            ==> pixels.len() == size.0 * size.1 * bytes_per_pixel(colour),
{
    let reader = Cursor::new(bytes);
    match kind {
        DecoderKind::Png => PngDecoder::new(reader).map(read_still),
        DecoderKind::Jpeg => JpegDecoder::new(reader).map(read_still),
        DecoderKind::Webp => WebPDecoder::new(reader).map(read_still),
        _ => TiffDecoder::new(reader).map(read_still),
    }.map_err(|error| error.to_string())
}

/// Reads every frame of `bytes` with the animation decoder of `kind` (a PNG decoder turned
/// into its APNG decoder with `PngDecoder::apng`); the result is named `frames_of`. Each
/// frame's pixels fill its RGBA buffer, which holds at least four bytes for each pixel.
#[verifier::external_body]
fn decode_frames(bytes: &[u8], kind: DecoderKind) -> (frames: Result<Vec<(Vec<u8>, (u32, u32), FrameDelay)>, String>)
    requires
        kind is Png || kind is Webp || kind is Gif,
    ensures
        frames_view(frames) == frames_of(bytes@, kind),
        frames matches Ok(frames) ==> forall|i: int| 0 <= i < frames.len()
            ==> #[trigger] frames@[i].0.len() >= frames@[i].1.0 * frames@[i].1.1 * 4,
{
    let reader = Cursor::new(bytes);
    match kind {
        DecoderKind::Png => PngDecoder::new(reader).and_then(|decoder| decoder.apng()).map_err(|error| error.to_string()).and_then(read_frames),
        DecoderKind::Gif => GifDecoder::new(reader).map_err(|error| error.to_string()).and_then(read_frames),
        _ => WebPDecoder::new(reader).map_err(|error| error.to_string()).and_then(read_frames),
    }
}

/// Whether resizing a `size` image to `target` stays within what can be allocated: the
/// intermediate image of `size.0` by `target.1` floating point RGBA pixels and the result.
pub open spec fn resize_fits(size: (u32, u32), target: (u32, u32)) -> bool {
    &&& size.0 * target.1 * 16 <= isize::MAX
    &&& target.0 * target.1 * 16 <= isize::MAX
}

/// `imageops::resize` with the Lanczos filter on the `size` image `pixels` holds
/// (`ImageBuffer::from_raw`), its pixels taken back (`ImageBuffer::into_raw`); the result is
/// named `resized_of`, and holds exactly the bytes of a `target` image.
#[verifier::external_body]
fn resize_pixels(pixels: Vec<u8>, size: (u32, u32), colour: ImageColourType, target: (u32, u32)) -> (resized: Vec<u8>)
    requires
        is_eight_bit(colour),
        pixels.len() >= size.0 * size.1 * channels(colour),
        resize_fits(size, target),
    ensures
        resized@ == resized_of(pixels@, size, colour, target),
        resized.len() == target.0 * target.1 * channels(colour),
{
    let ((width, height), (new_width, new_height)) = (size, target);
    let filter = FilterType::Lanczos3;
    match colour {
        ImageColourType::Grey8 => resize(&GrayImage::from_raw(width, height, pixels).unwrap(), new_width, new_height, filter).into_raw(),
        ImageColourType::GreyA8 => resize(&GrayAlphaImage::from_raw(width, height, pixels).unwrap(), new_width, new_height, filter).into_raw(),
        ImageColourType::Rgb8 => resize(&RgbImage::from_raw(width, height, pixels).unwrap(), new_width, new_height, filter).into_raw(),
        _ => resize(&RgbaImage::from_raw(width, height, pixels).unwrap(), new_width, new_height, filter).into_raw(),
    }
}

/// Whether `resize_fits` holds for a `size` image resized to `target`.
fn resize_fits_exec(size: (u32, u32), target: (u32, u32)) -> (fits: bool)
    ensures
        fits == resize_fits(size, target),
{
    let (width, new_width, new_height) = (size.0 as u128, target.0 as u128, target.1 as u128);
    assert(width * new_height <= 0xffff_ffffu128 * 0xffff_ffffu128) by (nonlinear_arith)
        requires
            width <= 0xffff_ffffu128,
            new_height <= 0xffff_ffffu128,
    ;
    assert(new_width * new_height <= 0xffff_ffffu128 * 0xffff_ffffu128) by (nonlinear_arith)
        requires
            new_width <= 0xffff_ffffu128,
            new_height <= 0xffff_ffffu128,
    ;
    let first = width * new_height;
    let second = new_width * new_height;
    let limit = isize::MAX as u128;
    first * 16 <= limit && second * 16 <= limit
}

/// The pixels and size of the `size` image `pixels` holds in the `colour` type, after
/// applying `modifications` in turn.
pub open spec fn modified(
    pixels: Seq<u8>,
    size: (u32, u32),
    colour: ImageColourType,
    modifications: Seq<ImageModification>,
) -> (Seq<u8>, (u32, u32))
    decreases modifications.len(),
{
    if modifications.len() == 0 {
        (pixels, size)
    } else {
        match modifications[0] {
            ImageModification::Resize(width, height) => modified(
                resized_of(pixels, size, colour, (width, height)),
                (width, height),
                colour,
                modifications.drop_first(),
            ),
        }
    }
}

/// The size of a `size` image after `modifications`: the target of the last resize, or
/// `size` when there is none.
pub open spec fn size_after(size: (u32, u32), modifications: Seq<ImageModification>) -> (u32, u32)
    decreases modifications.len(),
{
    if modifications.len() == 0 {
        size
    } else {
        match modifications[0] {
            ImageModification::Resize(width, height) => size_after((width, height), modifications.drop_first()),
        }
    }
}

/// Modifying an image changes its size to the target of the last resize (its own size when
/// there is no modification), whatever its pixels and colour type.
pub proof fn lemma_modified_size(
    pixels: Seq<u8>,
    size: (u32, u32),
    colour: ImageColourType,
    modifications: Seq<ImageModification>,
)
    ensures
        modified(pixels, size, colour, modifications).1 == size_after(size, modifications),
        modifications.len() > 0 ==> match modifications.last() {
            ImageModification::Resize(width, height) => size_after(size, modifications) == (width, height),
        },
    decreases modifications.len(),
{
    if modifications.len() > 0 {
        match modifications[0] {
            ImageModification::Resize(width, height) => {
                lemma_modified_size(
                    resized_of(pixels, size, colour, (width, height)),
                    (width, height),
                    colour,
                    modifications.drop_first(),
                );
                if modifications.len() > 1 {
                    assert(modifications.drop_first().last() == modifications.last());
                }
            },
        }
    }
}

/// The size of a `size` image after `modifications`.
pub fn modified_size(size: (u32, u32), modifications: &[ImageModification]) -> (new_size: (u32, u32))
    ensures
        new_size == size_after(size, modifications@),
{
    let mut current = size;
    let mut index: usize = 0;
    assert(modifications@.skip(0) =~= modifications@);
    while index < modifications.len()
        invariant
            index <= modifications@.len(),
            size_after(current, modifications@.skip(index as int)) == size_after(size, modifications@),
        decreases modifications.len() - index,
    {
        let ghost rest = modifications@.skip(index as int);
        assert(rest[0] == modifications@[index as int]);
        assert(rest.drop_first() =~= modifications@.skip(index + 1));
        current = match modifications[index] {
            ImageModification::Resize(width, height) => (width, height),
        };
        index = index + 1;
    }
    assert(modifications@.skip(index as int) =~= Seq::<ImageModification>::empty());
    current
}

/// Whether applying `modifications` in turn to a `size` image stays within what can be
/// allocated.
pub open spec fn modifiable(size: (u32, u32), modifications: Seq<ImageModification>) -> bool
    decreases modifications.len(),
{
    modifications.len() == 0 || match modifications[0] {
        ImageModification::Resize(width, height) => resize_fits(size, (width, height))
            && modifiable((width, height), modifications.drop_first()),
    }
}

/// Whether `modifiable` holds.
pub fn modifications_fit(size: (u32, u32), modifications: &[ImageModification]) -> (fit: bool)
    ensures
        fit == modifiable(size, modifications@),
{
    let mut current = size;
    let mut index: usize = 0;
    assert(modifications@.skip(0) =~= modifications@);
    while index < modifications.len()
        invariant
            index <= modifications@.len(),
            modifiable(size, modifications@) == modifiable(current, modifications@.skip(index as int)),
        decreases modifications.len() - index,
    {
        let ghost rest = modifications@.skip(index as int);
        assert(rest[0] == modifications@[index as int]);
        assert(rest.drop_first() =~= modifications@.skip(index + 1));
        let target = match modifications[index] {
            ImageModification::Resize(width, height) => (width, height),
        };
        if !resize_fits_exec(current, target) {
            return false;
        }
        current = target;
        index = index + 1;
    }
    assert(modifications@.skip(index as int).len() == 0);
    true
}

/// Applies `modifications` in turn to the `size` image `pixels` holds, giving its pixels and
/// size after them.
pub fn apply_modifications(
    pixels: Vec<u8>,
    size: (u32, u32),
    colour: ImageColourType,
    modifications: &[ImageModification],
) -> (result: (Vec<u8>, (u32, u32)))
    requires
        is_eight_bit(colour),
        pixels.len() >= size.0 * size.1 * channels(colour),
        modifiable(size, modifications@),
    ensures
        (result.0@, result.1) == modified(pixels@, size, colour, modifications@),
        result.1 == size_after(size, modifications@),
        result.0.len() >= result.1.0 * result.1.1 * channels(colour),
{
    proof {
        lemma_modified_size(pixels@, size, colour, modifications@);
    }
    let mut current = pixels;
    let mut current_size = size;
    let mut index: usize = 0;
    assert(modifications@.skip(0) =~= modifications@);
    while index < modifications.len()
        invariant
            index <= modifications@.len(),
            is_eight_bit(colour),
            current.len() >= current_size.0 * current_size.1 * channels(colour),
            modifiable(current_size, modifications@.skip(index as int)),
            modified(current@, current_size, colour, modifications@.skip(index as int))
                == modified(pixels@, size, colour, modifications@),
        decreases modifications.len() - index,
    {
        let ghost rest = modifications@.skip(index as int);
        assert(rest[0] == modifications@[index as int]);
        assert(rest.drop_first() =~= modifications@.skip(index + 1));
        let target = match modifications[index] {
            ImageModification::Resize(width, height) => (width, height),
        };
        current = resize_pixels(current, current_size, colour, target);
        current_size = target;
        index = index + 1;
    }
    assert(modifications@.skip(index as int) =~= Seq::<ImageModification>::empty());
    (current, current_size)
}

/// The pixels of a decoded still image, if it is one.
pub open spec fn static_pixels(image: DecodedImage) -> Option<Seq<u8>> {
    match image.content {
        DecodedImageContent::Static(pixels) => Some(pixels@),
        DecodedImageContent::Animated(_) => None,
    }
}

/// The view of the frames of a decoded animation: each frame's pixels and delay.
pub open spec fn frame_pixel_views(frames: Seq<(Vec<u8>, FrameDelay)>) -> Seq<(Seq<u8>, FrameDelay)> {
    frames.map_values(|frame: (Vec<u8>, FrameDelay)| (frame.0@, frame.1))
}

/// The frames of a decoded animation (each frame's pixels and delay), if it is one.
pub open spec fn animated_frames(image: DecodedImage) -> Option<Seq<(Seq<u8>, FrameDelay)>> {
    match image.content {
        DecodedImageContent::Static(_) => None,
        DecodedImageContent::Animated(frames) => Some(frame_pixel_views(frames@)),
    }
}

/// Whether `image` is a decoded image of `size` in `format` and `colour`, whose info records
/// these and the metadata of the Exif `chunk`.
pub open spec fn decoded_as(
    image: DecodedImage,
    size: (u32, u32),
    format: ImageFormat,
    colour: ImageColourType,
    chunk: Option<Seq<u8>>,
) -> bool {
    &&& image.size == size && image.colour_type == colour
    &&& image.info.size == size && image.info.format == format && image.info.colour_type == colour
    &&& shows_exif(image.info.metadata, chunk)
}

/// Each frame's pixels after `modifications`, with its delay.
pub open spec fn modified_frames(
    frames: Seq<(Seq<u8>, (u32, u32), FrameDelay)>,
    modifications: Seq<ImageModification>,
) -> Seq<(Seq<u8>, FrameDelay)> {
    frames.map_values(
        |frame: (Seq<u8>, (u32, u32), FrameDelay)|
            (modified(frame.0, frame.1, ImageColourType::Rgba8, modifications).0, frame.2),
    )
}

/// Whether `modifications` can be applied to every frame.
pub open spec fn frames_modifiable(
    frames: Seq<(Seq<u8>, (u32, u32), FrameDelay)>,
    modifications: Seq<ImageModification>,
) -> bool {
    forall|i: int| 0 <= i < frames.len() ==> modifiable(#[trigger] frames[i].1, modifications)
}

/// Whether the decoder of `kind` decodes `bytes` frame by frame: GIFs always, PNGs and
/// WebPs as their decoder reports (or the text of the check's error), the others never.
pub open spec fn animation_check(bytes: Seq<u8>, kind: DecoderKind) -> Result<bool, Seq<char>> {
    if kind is Png || kind is Webp {
        reports_animation_of(bytes, kind)
    } else {
        Ok(decodes_as_animation(kind, false))
    }
}

/// Whether `result` is the decoding failure whose text is `prefix` followed by `error`.
pub open spec fn is_decoding_failure(
    result: Result<DecodedImage, Error>,
    prefix: Seq<char>,
    error: Seq<char>,
) -> bool {
    result matches Err(Error::DecodingFailure { error: text }) && text@ == prefix + error
}

/// What decoding `bytes` with the decoder of `kind` gives, once the decoder was made and
/// found the Exif `chunk`, applying `modifications` to the pixels:
/// - a failed animation check is a `DecoderAnimationCheckFailure` with its text;
/// - an animation fails with the first frame's error, or with `AnimatedImageHasNoFrames`
///   when it has no frame; otherwise it is decoded as RGBA, each frame modified, with the
///   size of the first modified frame;
/// - a still image of a colour type roseate does not support is `UnsupportedColourType`, a
///   failed pixel read is a decoding failure with its text, and otherwise the pixels are
///   modified and decoded with their size after the modifications.
pub open spec fn decoded_after_init(
    result: Result<DecodedImage, Error>,
    bytes: Seq<u8>,
    kind: DecoderKind,
    format: ImageFormat,
    chunk: Option<Seq<u8>>,
    modifications: Seq<ImageModification>,
) -> bool {
    match animation_check(bytes, kind) {
        Err(error) => result matches Err(Error::DecoderAnimationCheckFailure { error: text })
            && text@ == error,
        Ok(true) => match frames_of(bytes, kind) {
            Err(error) => is_decoding_failure(
                result,
                "Image-rs decoder failed to decode animated frame: "@,
                error,
            ),
            Ok(frames) => if frames.len() == 0 {
                result matches Err(Error::AnimatedImageHasNoFrames)
            } else {
                result matches Ok(image) && decoded_as(
                    image,
                    modified(frames[0].0, frames[0].1, ImageColourType::Rgba8, modifications).1,
                    format,
                    ImageColourType::Rgba8,
                    chunk,
                ) && animated_frames(image) == Some(modified_frames(frames, modifications))
            },
        },
        Ok(false) => match still_image_of(bytes, kind) {
            Err(error) => result matches Err(Error::DecoderInitFailure { error: text }) && text@ == error,
            Ok((size, colour_kind, read)) => match colour_type_of_kind(colour_kind) {
                None => result matches Err(Error::UnsupportedColourType),
                Some(colour) => match read {
                    Err(error) => is_decoding_failure(
                        result,
                        "Image-rs decoder failed to decode image to pixels: "@,
                        error,
                    ),
                    Ok(pixels) => result matches Ok(image) && decoded_as(
                        image,
                        modified(pixels, size, colour, modifications).1,
                        format,
                        colour,
                        chunk,
                    ) && static_pixels(image) == Some(modified(pixels, size, colour, modifications).0),
                },
            },
        },
    }
}

/// Whether decoding `bytes` with the decoder of `kind` reaches modifications that cannot be
/// applied: to a still image whose colour type is not 8-bit, or beyond what can be allocated.
pub open spec fn panics_after_init(
    bytes: Seq<u8>,
    kind: DecoderKind,
    modifications: Seq<ImageModification>,
) -> bool {
    match animation_check(bytes, kind) {
        Err(_) => false,
        Ok(true) => match frames_of(bytes, kind) {
            Ok(frames) => !frames_modifiable(frames, modifications),
            Err(_) => false,
        },
        Ok(false) => match still_image_of(bytes, kind) {
            Ok((size, colour_kind, Ok(_))) => match colour_type_of_kind(colour_kind) {
                Some(colour) => modifications.len() > 0 && (!is_eight_bit(colour) || !modifiable(
                    size,
                    modifications,
                )),
                None => false,
            },
            _ => false,
        },
    }
}

/// `prefix` followed by `error`, as a decoding failure.
fn decoding_failure(prefix: &str, error: String) -> (failure: Error)
    ensures
        failure matches Error::DecodingFailure { error: text } && text@ == prefix@ + error@,
{
    let mut text = String::from_str(prefix);
    text.append(error.as_str());
    Error::DecodingFailure { error: text }
}

/// Applies `modifications` to every frame, or `None` when they cannot be applied to one.
fn modify_frames(
    frames: Vec<(Vec<u8>, (u32, u32), FrameDelay)>,
    modifications: &[ImageModification],
) -> (result: Option<(Vec<(Vec<u8>, FrameDelay)>, (u32, u32))>)
    requires
        frames.len() > 0,
        forall|i: int| 0 <= i < frames.len()
            ==> #[trigger] frames@[i].0.len() >= frames@[i].1.0 * frames@[i].1.1 * 4,
    ensures
        result is None <==> !frames_modifiable(frame_seq_view(frames@), modifications@),
        result matches Some((modified_pixels, size)) ==> {
            &&& frame_pixel_views(modified_pixels@)
                == modified_frames(frame_seq_view(frames@), modifications@)
            &&& size == modified(
                frame_seq_view(frames@)[0].0,
                frame_seq_view(frames@)[0].1,
                ImageColourType::Rgba8,
                modifications@,
            ).1
        },
{
    let ghost all = frame_seq_view(frames@);
    let mut index: usize = 0;
    while index < frames.len()
        invariant
            index <= frames@.len(),
            all == frame_seq_view(frames@),
            forall|j: int| 0 <= j < index ==> modifiable(#[trigger] all[j].1, modifications@),
        decreases frames.len() - index,
    {
        if !modifications_fit(frames[index].1, modifications) {
            assert(!modifiable(all[index as int].1, modifications@));
            return None;
        }
        index = index + 1;
    }
    assert(frames_modifiable(all, modifications@));
    assert forall|i: int| 0 <= i < all.len() implies #[trigger] all[i].0.len() >= all[i].1.0 * all[i].1.1 * 4 by {
        assert(all[i] == (frames@[i].0@, frames@[i].1, frames@[i].2));
        assert(frames@[i].0.len() >= frames@[i].1.0 * frames@[i].1.1 * 4);
    }
    assert(all.skip(0) =~= all);
    assert(modified_frames(all, modifications@).take(0) =~= Seq::<(Seq<u8>, FrameDelay)>::empty());
    let count = frames.len();
    let mut remaining = frames;
    let mut result: Vec<(Vec<u8>, FrameDelay)> = Vec::new();
    let mut first_size: (u32, u32) = (0, 0);
    let mut done: usize = 0;
    while done < count
        invariant
            done <= count,
            count == all.len(),
            frames_modifiable(all, modifications@),
            forall|i: int| 0 <= i < all.len() ==> #[trigger] all[i].0.len() >= all[i].1.0 * all[i].1.1 * 4,
            frame_seq_view(remaining@) == all.skip(done as int),
            frame_pixel_views(result@)
                == modified_frames(all, modifications@).take(done as int),
            done > 0 ==> first_size == modified(all[0].0, all[0].1, ImageColourType::Rgba8, modifications@).1,
        decreases count - done,
    {
        assert(remaining@.len() == frame_seq_view(remaining@).len());
        assert(frame_seq_view(remaining@)[0] == all[done as int]);
        let ghost before = remaining@;
        let (pixels, size, delay) = remaining.remove(0);
        assert(before[0] == (pixels, size, delay));
        assert(frame_seq_view(before)[0] == (pixels@, size, delay));
        assert forall|j: int| 0 <= j < remaining@.len() implies frame_seq_view(remaining@)[j]
            == all.skip(done + 1)[j] by {
            assert(remaining@[j] == before[j + 1]);
            assert(frame_seq_view(before)[j + 1] == all.skip(done as int)[j + 1]);
        }
        assert(frame_seq_view(remaining@) =~= all.skip(done + 1));
        assert(all[done as int] == (pixels@, size, delay)) by {
            assert(all.skip(done as int)[0] == all[done as int]);
        }
        assert(all[done as int].0.len() >= all[done as int].1.0 * all[done as int].1.1 * 4);
        assert(modifiable(all[done as int].1, modifications@));
        let (new_pixels, new_size) = apply_modifications(pixels, size, ImageColourType::Rgba8, modifications);
        if done == 0 {
            first_size = new_size;
        }
        let ghost old_result = result@;
        result.push((new_pixels, delay));
        assert(frame_pixel_views(result@)
            =~= modified_frames(all, modifications@).take(done + 1)) by {
            assert(result@ == old_result.push((new_pixels, delay)));
            assert(modified_frames(all, modifications@)[done as int] == (new_pixels@, delay));
            let old_view = frame_pixel_views(old_result);
            let new_view = frame_pixel_views(result@);
            assert(old_view == modified_frames(all, modifications@).take(done as int));
            assert(modified_frames(all, modifications@).len() == all.len());
            assert(old_view.len() == old_result.len());
            assert(old_result.len() == done);
            assert(new_view.len() == result@.len());
            assert forall|j: int| 0 <= j < done implies new_view[j] == old_view[j] by {
                assert(result@[j] == old_result[j]);
            }
            assert(new_view[done as int] == (new_pixels@, delay));
        }
        done = done + 1;
    }
    assert(modified_frames(all, modifications@).take(count as int) =~= modified_frames(all, modifications@));
    Some((result, first_size))
}

/// Decodes `bytes` with the decoder of `kind`, once it was made and found the Exif `chunk`,
/// applying `modifications`; `None` where they cannot be applied (see `panics_after_init`).
fn decode_after_init(
    bytes: &[u8],
    kind: DecoderKind,
    format: ImageFormat,
    chunk: Option<Vec<u8>>,
    modifications: &[ImageModification],
) -> (decoded: Option<Result<DecodedImage, Error>>)
    ensures
        decoded is None <==> panics_after_init(bytes@, kind, modifications@),
        decoded matches Some(result) ==> decoded_after_init(
            result,
            bytes@,
            kind,
            format,
            bytes_view(chunk),
            modifications@,
        ),
{
    let animated = if kind.checks_for_animation() {
        match read_reports_animation(bytes, kind) {
            Ok(reports) => kind.decode_as_animation(reports),
            Err(error) => return Some(Err(Error::DecoderAnimationCheckFailure { error })),
        }
    } else {
        kind.decode_as_animation(false)
    };
    if animated {
        let frames = match decode_frames(bytes, kind) {
            Ok(frames) => frames,
            Err(error) => return Some(
                Err(decoding_failure("Image-rs decoder failed to decode animated frame: ", error)),
            ),
        };
        if frames.len() == 0 {
            return Some(Err(Error::AnimatedImageHasNoFrames));
        }
        let (modified_pixels, size) = match modify_frames(frames, modifications) {
            Some(modified) => modified,
            None => return None,
        };
        let metadata = get_decoded_image_metadata(chunk);
        return Some(
            Ok(
                DecodedImage::new(
                    size,
                    format,
                    ImageColourType::Rgba8,
                    metadata,
                    DecodedImageContent::Animated(modified_pixels),
                ),
            ),
        );
    }
    let (size, colour_kind, read) = match decode_still(bytes, kind) {
        Ok(still) => still,
        Err(error) => return Some(Err(Error::DecoderInitFailure { error })),
    };
    let colour = match ImageColourType::try_from(colour_kind) {
        Ok(colour) => colour,
        Err(error) => return Some(Err(error)),
    };
    let pixels = match read {
        Ok(pixels) => pixels,
        Err(error) => return Some(
            Err(decoding_failure("Image-rs decoder failed to decode image to pixels: ", error)),
        ),
    };
    let metadata = get_decoded_image_metadata(chunk);
    if modifications.len() == 0 {
        assert(modifications@ =~= Seq::<ImageModification>::empty());
        return Some(Ok(DecodedImage::new(size, format, colour, metadata, DecodedImageContent::Static(pixels))));
    }
    if !is_eight_bit_exec(colour) || !modifications_fit(size, modifications) {
        return None;
    }
    proof {
        lemma_eight_bit_buffer_fits(colour_kind, colour, size, pixels@.len() as int);
    }
    let (modified_pixels, modified_size) = apply_modifications(pixels, size, colour, modifications);
    Some(
        Ok(
            DecodedImage::new(
                modified_size,
                format,
                colour,
                metadata,
                DecodedImageContent::Static(modified_pixels),
            ),
        ),
    )
}

/// Whether a colour type holds one byte per channel.
pub fn is_eight_bit_exec(colour: ImageColourType) -> (eight_bit: bool)
    ensures
        eight_bit == is_eight_bit(colour),
{
    match colour {
        ImageColourType::Grey8 | ImageColourType::GreyA8 | ImageColourType::Rgb8 | ImageColourType::Rgba8 => true,
        _ => false,
    }
}

/// The pixels of an 8-bit colour type take one byte per channel, so a buffer of the
/// decoder's bytes per pixel holds every channel of every pixel.
proof fn lemma_eight_bit_buffer_fits(kind: ColorTypeKind, colour: ImageColourType, size: (u32, u32), len: int)
    requires
        colour_type_of_kind(kind) == Some(colour),
        is_eight_bit(colour),
        kind != ColorTypeKind::Other ==> len == size.0 * size.1 * bytes_per_pixel(kind),
    ensures
        len >= size.0 * size.1 * channels(colour),
{
    assert(bytes_per_pixel(kind) == channels(colour));
}

/// What the backend decodes from.
pub enum BackendSource {
    /// The bytes of an encoded image, read with the decoder of this kind.
    Decoder(Vec<u8>, DecoderKind),
    /// An image that was already decoded.
    Buffer(DecodedImage),
}

/// Whether an already decoded image fits the image-rs buffers the backend holds it in: its
/// colour type is 8-bit and its pixels (every frame's, for an animation) fill its size.
pub open spec fn buffer_fits(image: DecodedImage) -> bool {
    &&& is_eight_bit(image.colour_type)
    &&& match image.content {
        DecodedImageContent::Static(pixels) => pixels.len() >= image.size.0 * image.size.1 * channels(
            image.colour_type,
        ),
        DecodedImageContent::Animated(frames) => forall|i: int| 0 <= i < frames.len()
            ==> #[trigger] frames@[i].0.len() >= image.size.0 * image.size.1 * channels(image.colour_type),
    }
}

/// `set` with each of `added` appended in turn, unless it already holds it.
pub open spec fn with_added(set: Seq<ImageModification>, added: Seq<ImageModification>) -> Seq<ImageModification>
    decreases added.len(),
{
    if added.len() == 0 {
        set
    } else {
        with_added(if set.contains(added[0]) { set } else { set.push(added[0]) }, added.drop_first())
    }
}

/// Each frame's pixels, of a `size` image in `colour`, after `modifications`, with its delay.
pub open spec fn modified_buffer_frames(
    frames: Seq<(Seq<u8>, FrameDelay)>,
    size: (u32, u32),
    colour: ImageColourType,
    modifications: Seq<ImageModification>,
) -> Seq<(Seq<u8>, FrameDelay)> {
    frames.map_values(
        |frame: (Seq<u8>, FrameDelay)| (modified(frame.0, size, colour, modifications).0, frame.1),
    )
}

/// What decoding an already decoded `image` in `format` gives with `modifications`: a
/// still image's pixels are modified and decoded with their new size; an animation's frames
/// are each modified and the animation takes the size they all have after the modifications
/// (see `size_after`). There is no metadata.
pub open spec fn buffer_outcome(
    result: Result<DecodedImage, Error>,
    image: DecodedImage,
    format: ImageFormat,
    modifications: Seq<ImageModification>,
) -> bool {
    result matches Ok(decoded) && match image.content {
        DecodedImageContent::Static(pixels) => {
            let (new_pixels, new_size) = modified(pixels@, image.size, image.colour_type, modifications);
            decoded_as(decoded, new_size, format, image.colour_type, None) && static_pixels(decoded)
                == Some(new_pixels)
        },
        DecodedImageContent::Animated(frames) => decoded_as(
            decoded,
            size_after(image.size, modifications),
            format,
            image.colour_type,
            None,
        ) && animated_frames(decoded) == Some(
            modified_buffer_frames(frame_pixel_views(frames@), image.size, image.colour_type, modifications),
        ),
    }
}

/// What reading encoded `bytes` of `format` into a backend gives: the error that the
/// backend has no decoder for the format, a `DecoderInitFailure` or a
/// `DecoderRetrieveExifFailure` with the decoder's error text, or a backend holding the
/// bytes, the Exif chunk the decoder found and no modifications.
pub open spec fn reader_outcome(result: Result<ImageRSBackend, Error>, bytes: Seq<u8>, format: ImageFormat) -> bool {
    match decoder_of_format(format) {
        None => result matches Err(Error::DecoderImageFormatNotSupported { image_format, backend })
            && image_format@ == format_text(format) && backend@ == "image-rs"@,
        Some(kind) => match decoder_init_error_of(bytes, kind) {
            Some(error) => result matches Err(Error::DecoderInitFailure { error: text }) && text@ == error,
            None => match exif_chunk_of(bytes, kind) {
                Err(error) => result matches Err(Error::DecoderRetrieveExifFailure { error: text })
                    && text@ == error,
                Ok(chunk) => result matches Ok(backend) && backend.source() matches BackendSource::Decoder(
                    held,
                    held_kind,
                ) && held@ == bytes && held_kind == kind && backend.exif_chunk() == chunk
                    && backend.modifications().len() == 0 && backend.format() == format,
            },
        },
    }
}

/// Whether `modifications` holds `modification`.
fn holds_modification(modifications: &Vec<ImageModification>, modification: ImageModification) -> (found: bool)
    ensures
        found == modifications@.contains(modification),
{
    let mut index: usize = 0;
    while index < modifications.len()
        invariant
            index <= modifications@.len(),
            forall|j: int| 0 <= j < index ==> modifications@[j] != modification,
        decreases modifications.len() - index,
    {
        if modifications[index] == modification {
            return true;
        }
        index = index + 1;
    }
    false
}

/// Applies `modifications` to each frame of a `size` image in `colour`.
fn modify_buffer_frames(
    frames: Vec<(Vec<u8>, FrameDelay)>,
    size: (u32, u32),
    colour: ImageColourType,
    modifications: &[ImageModification],
) -> (result: Vec<(Vec<u8>, FrameDelay)>)
    requires
        is_eight_bit(colour),
        modifiable(size, modifications@),
        forall|i: int| 0 <= i < frames.len() ==> #[trigger] frames@[i].0.len() >= size.0 * size.1 * channels(colour),
    ensures
        frame_pixel_views(result@) == modified_buffer_frames(frame_pixel_views(frames@), size, colour, modifications@),
{
    let ghost all = frame_pixel_views(frames@);
    assert forall|i: int| 0 <= i < all.len() implies #[trigger] all[i].0.len() >= size.0 * size.1 * channels(colour) by {
        assert(all[i] == (frames@[i].0@, frames@[i].1));
        assert(frames@[i].0.len() >= size.0 * size.1 * channels(colour));
    }
    let count = frames.len();
    let mut remaining = frames;
    let mut result: Vec<(Vec<u8>, FrameDelay)> = Vec::new();
    let mut done: usize = 0;
    assert(all.skip(0) =~= all);
    assert(modified_buffer_frames(all, size, colour, modifications@).take(0) =~= Seq::<(Seq<u8>, FrameDelay)>::empty());
    while done < count
        invariant
            done <= count,
            count == all.len(),
            is_eight_bit(colour),
            modifiable(size, modifications@),
            forall|i: int| 0 <= i < all.len() ==> #[trigger] all[i].0.len() >= size.0 * size.1 * channels(colour),
            frame_pixel_views(remaining@) == all.skip(done as int),
            frame_pixel_views(result@) == modified_buffer_frames(all, size, colour, modifications@).take(done as int),
        decreases count - done,
    {
        assert(remaining@.len() == frame_pixel_views(remaining@).len());
        let ghost before = remaining@;
        let (pixels, delay) = remaining.remove(0);
        assert(before[0] == (pixels, delay));
        assert(frame_pixel_views(before)[0] == (pixels@, delay));
        assert(all[done as int] == (pixels@, delay)) by {
            assert(all.skip(done as int)[0] == all[done as int]);
        }
        assert forall|j: int| 0 <= j < remaining@.len() implies frame_pixel_views(remaining@)[j]
            == all.skip(done + 1)[j] by {
            assert(remaining@[j] == before[j + 1]);
            assert(frame_pixel_views(before)[j + 1] == all.skip(done as int)[j + 1]);
        }
        assert(frame_pixel_views(remaining@) =~= all.skip(done + 1));
        assert(all[done as int].0.len() >= size.0 * size.1 * channels(colour));
        let (new_pixels, _) = apply_modifications(pixels, size, colour, modifications);
        let ghost old_result = result@;
        result.push((new_pixels, delay));
        assert(frame_pixel_views(result@) =~= modified_buffer_frames(all, size, colour, modifications@).take(done + 1)) by {
            let old_view = frame_pixel_views(old_result);
            let new_view = frame_pixel_views(result@);
            assert(modified_buffer_frames(all, size, colour, modifications@).len() == all.len());
            assert(old_view.len() == old_result.len());
            assert(old_result.len() == done);
            assert(new_view.len() == result@.len());
            assert forall|j: int| 0 <= j < done implies new_view[j] == old_view[j] by {
                assert(result@[j] == old_result[j]);
            }
            assert(new_view[done as int] == (new_pixels@, delay));
        }
        done = done + 1;
    }
    assert(modified_buffer_frames(all, size, colour, modifications@).take(count as int)
        =~= modified_buffer_frames(all, size, colour, modifications@));
    result
}

/// The image-rs decoding backend: reads an encoded image, or takes an already decoded one,
/// and decodes it with the modifications it was given.
pub struct ImageRSBackend {
    source: BackendSource,
    modifications: Vec<ImageModification>,
    image_exif_chunk: Option<Vec<u8>>,
    image_format: ImageFormat,
}

impl ImageRSBackend {
    /// A backend reading bytes holds the decoder for its format, which was made on them
    /// and found its Exif chunk; one holding a decoded image holds one that fits image-rs
    /// buffers, and no Exif chunk.
    #[verifier::type_invariant]
    spec fn well_formed(self) -> bool {
        match self.source {
            BackendSource::Decoder(bytes, kind) => {
                &&& decoder_of_format(self.image_format) == Some(kind)
                &&& decoder_init_error_of(bytes@, kind) is None
                &&& exif_chunk_of(bytes@, kind) == Ok::<Option<Seq<u8>>, Seq<char>>(bytes_view(self.image_exif_chunk))
            },
            BackendSource::Buffer(image) => buffer_fits(image) && self.image_exif_chunk is None,
        }
    }

    /// What the backend decodes from.
    pub closed spec fn source(self) -> BackendSource {
        self.source
    }

    /// The modifications the backend applies, in the order they are applied.
    pub closed spec fn modifications(self) -> Seq<ImageModification> {
        self.modifications@
    }

    /// The Exif chunk the decoder found.
    pub closed spec fn exif_chunk(self) -> Option<Seq<u8>> {
        bytes_view(self.image_exif_chunk)
    }

    /// The format of the image.
    pub closed spec fn format(self) -> ImageFormat {
        self.image_format
    }

    /// Whether decoding reaches modifications that cannot be applied: to a still image whose
    /// colour type is not 8-bit, or beyond what can be allocated.
    pub open spec fn decode_panics(self) -> bool {
        match self.source() {
            BackendSource::Decoder(bytes, kind) => panics_after_init(bytes@, kind, self.modifications()),
            BackendSource::Buffer(image) => !modifiable(image.size, self.modifications()),
        }
    }

    /// Whether `result` is what decoding gives (see `decoded_after_init` and `buffer_outcome`).
    pub open spec fn decode_outcome(self, result: Result<DecodedImage, Error>) -> bool {
        match self.source() {
            BackendSource::Decoder(bytes, kind) => decoded_after_init(
                result,
                bytes@,
                kind,
                self.format(),
                self.exif_chunk(),
                self.modifications(),
            ),
            BackendSource::Buffer(image) => buffer_outcome(result, image, self.format(), self.modifications()),
        }
    }

    /// Makes a backend from a reader: for encoded bytes, makes the decoder for the format and
    /// reads the Exif chunk with it (see `reader_outcome`); an already decoded image is taken
    /// as it is.
    pub fn from_reader(image_reader: ImageReader) -> (result: Result<Self, Error>)
        requires
            image_reader.data matches ImageReaderData::DecodedImage(image) ==> buffer_fits(image),
        ensures
            match image_reader.data {
                ImageReaderData::EncodedImage(bytes) => reader_outcome(result, bytes@, image_reader.image_format),
                ImageReaderData::DecodedImage(image) => result matches Ok(backend) && backend.source()
                    == BackendSource::Buffer(image) && backend.exif_chunk() is None
                    && backend.modifications().len() == 0 && backend.format() == image_reader.image_format,
            },
    {
        let format = image_reader.image_format;
        match image_reader.data {
            ImageReaderData::EncodedImage(bytes) => {
                let kind = match decoder_for_format(format) {
                    Ok(kind) => kind,
                    Err(error) => return Err(error),
                };
                if let Some(error) = decoder_init_error(bytes.as_slice(), kind) {
                    return Err(Error::DecoderInitFailure { error });
                }
                let chunk = match read_exif_chunk(bytes.as_slice(), kind) {
                    Ok(chunk) => chunk,
                    Err(error) => return Err(Error::DecoderRetrieveExifFailure { error }),
                };
                Ok(
                    Self {
                        source: BackendSource::Decoder(bytes, kind),
                        modifications: Vec::new(),
                        image_exif_chunk: chunk,
                        image_format: format,
                    },
                )
            },
            ImageReaderData::DecodedImage(image) => Ok(
                Self {
                    source: BackendSource::Buffer(image),
                    modifications: Vec::new(),
                    image_exif_chunk: None,
                    image_format: format,
                },
            ),
        }
    }

    /// Adds `modifications` to those the backend applies, each unless it already has it.
    pub fn modify(&mut self, modifications: Vec<ImageModification>)
        ensures
            final(self).modifications() == with_added(old(self).modifications(), modifications@),
            final(self).source() == old(self).source(),
            final(self).exif_chunk() == old(self).exif_chunk(),
            final(self).format() == old(self).format(),
    {
        proof {
            use_type_invariant(&*self);
        }
        let mut current: Vec<ImageModification> = Vec::new();
        std::mem::swap(&mut current, &mut self.modifications);
        let mut index: usize = 0;
        assert(modifications@.skip(0) =~= modifications@);
        while index < modifications.len()
            invariant
                index <= modifications@.len(),
                with_added(current@, modifications@.skip(index as int))
                    == with_added(old(self).modifications(), modifications@),
            decreases modifications.len() - index,
        {
            let ghost rest = modifications@.skip(index as int);
            assert(rest[0] == modifications@[index as int]);
            assert(rest.drop_first() =~= modifications@.skip(index + 1));
            let modification = modifications[index];
            if !holds_modification(&current, modification) {
                current.push(modification);
            }
            index = index + 1;
        }
        assert(modifications@.skip(index as int) =~= Seq::<ImageModification>::empty());
        self.modifications = current;
    }

    /// Decodes, or `None` where the modifications cannot be applied.
    fn decode_or_none(self) -> (decoded: Option<Result<DecodedImage, Error>>)
        ensures
            decoded is None <==> self.decode_panics(),
            decoded matches Some(result) ==> self.decode_outcome(result),
    {
        proof {
            use_type_invariant(&self);
        }
        let format = self.image_format;
        let modifications = self.modifications;
        match self.source {
            BackendSource::Decoder(bytes, kind) => decode_after_init(
                bytes.as_slice(),
                kind,
                format,
                self.image_exif_chunk,
                modifications.as_slice(),
            ),
            BackendSource::Buffer(image) => {
                if !modifications_fit(image.size, modifications.as_slice()) {
                    return None;
                }
                let metadata = get_decoded_image_metadata(None);
                let size = image.size;
                let colour = image.colour_type;
                match image.content {
                    DecodedImageContent::Static(pixels) => {
                        let (new_pixels, new_size) = apply_modifications(
                            pixels,
                            size,
                            colour,
                            modifications.as_slice(),
                        );
                        Some(Ok(DecodedImage::new(new_size, format, colour, metadata, DecodedImageContent::Static(new_pixels))))
                    },
                    DecodedImageContent::Animated(frames) => {
                        let new_frames = modify_buffer_frames(frames, size, colour, modifications.as_slice());
                        let new_size = modified_size(size, modifications.as_slice());
                        Some(Ok(DecodedImage::new(new_size, format, colour, metadata, DecodedImageContent::Animated(new_frames))))
                    },
                }
            },
        }
    }

    /// Decodes the image (see `decode_outcome`), applying the backend's modifications.
    pub fn decode(self) -> (result: Result<DecodedImage, Error>)
        requires
            !self.decode_panics(),
        ensures
            self.decode_outcome(result),
    {
        match self.decode_or_none() {
            Some(result) => result,
            None => {
                proof {
                    assert(false);
                }
                Err(Error::AnimatedImageHasNoFrames)
            },
        }
    }

    /// Decodes the image as `decode` does, or gives `None`, decoding nothing, where the
    /// modifications cannot be applied (see `decode_panics`).
    pub fn checked_decode(self) -> (decoded: Option<Result<DecodedImage, Error>>)
        ensures
            decoded is None <==> self.decode_panics(),
            decoded matches Some(result) ==> self.decode_outcome(result),
    {
        self.decode_or_none()
    }
}

} // verus!
