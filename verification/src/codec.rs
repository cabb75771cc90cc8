//! The image and video codecs that the transform engine calls, each behind one function whose
//! contract is taken on trust from the crate that does the work.
//!
//! What a codec computes is not restated here. Where it depends on the bytes and numbers
//! handed in and on nothing else, it is given a name, and the contracts of the engine speak of
//! that name. The resampling filters work in floating point, and std leaves the last bits of
//! some of its functions to the platform: a name stands for what one build of the codecs
//! computes on one platform.

use rgb::FromSlice;
use vstd::prelude::*;

verus! {

/// The formats that the generic resizer reads and writes.
#[derive(Debug, Clone, Copy, PartialEq, Eq, Structural)]
pub enum ImageFormat {
    Png,
    Jpeg,
    Gif,
    WebP,
}

/// The resampling filters in use.
#[derive(Debug, Clone, Copy, PartialEq, Eq, Structural)]
pub enum Filter {
    Triangle,
    Lanczos3,
}

/// How the samples of a PNG pixel are laid out.
#[derive(Debug, Clone, Copy, PartialEq, Eq, Structural)]
pub enum PngColor {
    Grayscale,
    Rgb,
    Indexed,
    GrayscaleAlpha,
    Rgba,
}

/// The first frame of a PNG, decoded.
#[derive(Debug)]
pub struct PngImage {
    pub width: u32,
    pub height: u32,
    pub color: PngColor,
    /// Bits per sample.
    pub bits: u8,
    /// The samples, row by row.
    pub pixels: Vec<u8>,
}

/// What contracts say of a [`PngImage`].
pub struct PngImageView {
    pub width: u32,
    pub height: u32,
    pub color: PngColor,
    pub bits: u8,
    pub pixels: Seq<u8>,
}

impl View for PngImage {
    type V = PngImageView;

    open spec fn view(&self) -> PngImageView {
        PngImageView {
            width: self.width,
            height: self.height,
            color: self.color,
            bits: self.bits,
            pixels: self.pixels@,
        }
    }
}

/// One frame of an animation: its size, the time in milliseconds at which it is shown, and
/// its pixels as four bytes each (red, green, blue, alpha), row by row.
#[derive(Debug)]
pub struct AnimFrame {
    pub width: u32,
    pub height: u32,
    pub timestamp: i32,
    pub pixels: Vec<u8>,
}

/// What contracts say of an [`AnimFrame`].
pub struct AnimFrameView {
    pub width: u32,
    pub height: u32,
    pub timestamp: i32,
    pub pixels: Seq<u8>,
}

impl View for AnimFrame {
    type V = AnimFrameView;

    open spec fn view(&self) -> AnimFrameView {
        AnimFrameView {
            width: self.width,
            height: self.height,
            timestamp: self.timestamp,
            pixels: self.pixels@,
        }
    }
}

/// What an animation encoder is made with: the canvas and the encoder's settings.
#[derive(Debug, Clone, Copy, PartialEq, Eq, Structural)]
pub struct AnimSetup {
    pub width: u32,
    pub height: u32,
    /// The least and the greatest distance between key frames.
    pub kmin: isize,
    pub kmax: isize,
    /// The lossy quality, from 0 to 100.
    pub quality: u8,
    pub segments: usize,
    pub alpha_compression: bool,
}

/// What a look at the start of a GIF found.
#[derive(Debug, Clone, Copy, PartialEq, Eq, Structural)]
pub enum GifProbe {
    /// The stream is no GIF that the decoder reads.
    Unreadable,
    /// The GIF holds no frame.
    NoFrame,
    /// The first frame does not decode.
    BadFrame,
    /// The width and height of the first frame.
    Frame(u16, u16),
}

/// The view of a codec's answer in bytes.
pub open spec fn bytes_view(r: Result<Vec<u8>, String>) -> Result<Seq<u8>, Seq<char>> {
    match r {
        Ok(v) => Ok(v@),
        Err(e) => Err(e@),
    }
}

/// The view of a codec's answer that is a size.
pub open spec fn size_view(r: Result<(u32, u32), String>) -> Result<(u32, u32), Seq<char>> {
    match r {
        Ok(v) => Ok(v),
        Err(e) => Err(e@),
    }
}

/// The view of a decoded PNG, or of the decoder's message.
pub open spec fn png_view(r: Result<PngImage, String>) -> Result<PngImageView, Seq<char>> {
    match r {
        Ok(v) => Ok(v@),
        Err(e) => Err(e@),
    }
}

/// The view of decoded frames, or of the decoder's message.
pub open spec fn frames_view(r: Result<Vec<AnimFrame>, String>) -> Result<
    Seq<AnimFrameView>,
    Seq<char>,
> {
    match r {
        Ok(v) => Ok(v@.map_values(|f: AnimFrame| f@)),
        Err(e) => Err(e@),
    }
}

/// The width and height of the image that `data` decodes to in `format`.
pub uninterp spec fn decoded_size(data: Seq<u8>, format: ImageFormat) -> Result<
    (u32, u32),
    Seq<char>,
>;

/// The width and height of the image that `data` decodes to in the format that its first
/// bytes announce.
pub uninterp spec fn sniffed_size(data: Seq<u8>) -> Result<(u32, u32), Seq<char>>;

/// The image in `data`, read in `format`, scaled down to lie within `width` by `height` and
/// written in `format` again.
pub uninterp spec fn thumbnail_of(data: Seq<u8>, format: ImageFormat, width: u32, height: u32)
    -> Result<Seq<u8>, Seq<char>>;

/// The image in `data` resampled to exactly `width` by `height` and written as lossless
/// WebP.
pub uninterp spec fn lossless_webp_of(data: Seq<u8>, width: u32, height: u32, filter: Filter)
    -> Result<Seq<u8>, Seq<char>>;

/// The frames of the animated WebP in `data`, in the order they are shown.
pub uninterp spec fn animation_of(data: Seq<u8>) -> Result<Seq<AnimFrameView>, Seq<char>>;

/// The pixels of a frame of `width` by `height`, written as WebP.
pub uninterp spec fn frame_as_webp(pixels: Seq<u8>, width: u32, height: u32) -> Result<
    Seq<u8>,
    Seq<char>,
>;

/// The pixels of the frame that is held as WebP in `webp`, resampled to `width` by `height`.
pub uninterp spec fn frame_resized(webp: Seq<u8>, width: u32, height: u32, filter: Filter)
    -> Result<Seq<u8>, Seq<char>>;

/// The frames that an animation encoder has taken so far, each with its time.
pub uninterp spec fn encoder_frames(encoder: webp_animation::Encoder) -> Seq<(Seq<u8>, i32)>;

/// What an animation encoder was made with.
pub uninterp spec fn encoder_setup(encoder: webp_animation::Encoder) -> AnimSetup;

/// Whether an animation encoder can be made with `setup`; the crate's message where not.
pub uninterp spec fn encoder_made(setup: AnimSetup) -> Result<(), Seq<char>>;

/// Whether an encoder made with `setup` that holds the frames `before` takes one more frame
/// with these pixels at this time; the crate's message where not.
pub uninterp spec fn frame_taken(
    setup: AnimSetup,
    before: Seq<(Seq<u8>, i32)>,
    pixels: Seq<u8>,
    timestamp: i32,
) -> Result<(), Seq<char>>;

/// The animated WebP that an encoder made with `setup` writes for `frames`, the last of them
/// shown until `end`.
pub uninterp spec fn animation_bytes(setup: AnimSetup, frames: Seq<(Seq<u8>, i32)>, end: i32)
    -> Result<Seq<u8>, Seq<char>>;

/// The first frame of the PNG in `data`.
pub uninterp spec fn png_decoded(data: Seq<u8>) -> Result<PngImageView, Seq<char>>;

/// Samples of `samples` bytes a pixel, `w1` by `h1`, resampled to `w2` by `h2`.
pub uninterp spec fn samples_resized(
    src: Seq<u8>,
    samples: u8,
    w1: usize,
    h1: usize,
    w2: usize,
    h2: usize,
    filter: Filter,
) -> Result<Seq<u8>, Seq<char>>;

/// The PNG that holds `pixels` as an image of `width` by `height`.
pub uninterp spec fn png_encoded(
    pixels: Seq<u8>,
    width: u32,
    height: u32,
    color: PngColor,
    bits: u8,
) -> Result<Seq<u8>, Seq<char>>;

/// What a look at the start of the GIF in `data` finds.
pub uninterp spec fn gif_probed(data: Seq<u8>, memory_limit: u64, allow_unknown_blocks: bool)
    -> GifProbe;

#[verifier::external_type_specification]
#[verifier::external_body]
pub struct ExAnimationEncoder(webp_animation::Encoder);

/// Decodes `data` with `image::ImageReader::with_format(..).decode()` and reads the
/// image's `width()` and `height()`; an error is handed on as its `Display` text.
/// Trusted: the answer is a function of the bytes and the format.
#[verifier::external_body]
pub(crate) fn decode_size(data: &[u8], format: ImageFormat) -> (r: Result<(u32, u32), String>)
    ensures
        size_view(r) == decoded_size(data@, format),
{
    let format = match format {
        ImageFormat::Png => image::ImageFormat::Png,
        ImageFormat::Jpeg => image::ImageFormat::Jpeg,
        ImageFormat::Gif => image::ImageFormat::Gif,
        ImageFormat::WebP => image::ImageFormat::WebP,
    };
    image::ImageReader::with_format(std::io::Cursor::new(data), format)
        .decode()
        .map(|img| (img.width(), img.height()))
        .map_err(|e| e.to_string())
}

/// Decodes `data` with `image::load_from_memory`, which guesses the format, and reads the
/// image's `width()` and `height()`. Trusted: the answer is a function of the bytes.
#[verifier::external_body]
pub(crate) fn sniff_size(data: &[u8]) -> (r: Result<(u32, u32), String>)
    ensures
        size_view(r) == sniffed_size(data@),
{
    image::load_from_memory(data).map(|img| (img.width(), img.height())).map_err(
        |e| e.to_string(),
    )
}

/// Decodes `data` as [`decode_size`] does, scales the image with `DynamicImage::thumbnail`
/// and encodes it with `DynamicImage::write_to` in the same format. The bounds keep the
/// allocation of the scaled image from overflowing. Trusted: the answer is a function of the
/// arguments.
#[verifier::external_body]
pub(crate) fn thumbnail(data: &[u8], format: ImageFormat, width: u32, height: u32) -> (r: Result<
    Vec<u8>,
    String,
>)
    requires
        1 <= width,
        1 <= height,
        width * height <= MAX_PIXELS,
    ensures
        bytes_view(r) == thumbnail_of(data@, format, width, height),
{
    let format = match format {
        ImageFormat::Png => image::ImageFormat::Png,
        ImageFormat::Jpeg => image::ImageFormat::Jpeg,
        ImageFormat::Gif => image::ImageFormat::Gif,
        ImageFormat::WebP => image::ImageFormat::WebP,
    };
    let img = image::ImageReader::with_format(std::io::Cursor::new(data), format)
        .decode()
        .map_err(|e| e.to_string())?;
    let mut out = std::io::Cursor::new(Vec::new());
    img.thumbnail(width, height).write_to(&mut out, format).map_err(|e| e.to_string())?;
    Ok(out.into_inner())
}

/// Decodes `data` with `image::load_from_memory`, resamples it with
/// `DynamicImage::resize_exact` and encodes it with `webp::Encoder::from_image(..)
/// .encode_lossless()`. The bounds are those of the WebP format, outside of which the encoder
/// fails. Trusted: the answer is a function of the arguments.
#[verifier::external_body]
pub(crate) fn resize_to_webp(data: &[u8], width: u32, height: u32, filter: Filter) -> (r: Result<
    Vec<u8>,
    String,
>)
    requires
        1 <= width <= MAX_WEBP_SIDE,
        1 <= height <= MAX_WEBP_SIDE,
        width * height <= MAX_PIXELS,
    ensures
        bytes_view(r) == lossless_webp_of(data@, width, height, filter),
{
    let filter = match filter {
        Filter::Triangle => image::imageops::FilterType::Triangle,
        Filter::Lanczos3 => image::imageops::FilterType::Lanczos3,
    };
    let img = image::load_from_memory(data).map_err(|e| e.to_string())?.resize_exact(
        width,
        height,
        filter,
    );
    let encoder = webp::Encoder::from_image(&img).map_err(|e| e.to_string())?;
    Ok(encoder.encode_lossless().to_vec())
}

/// Decodes `data` with `webp_animation::Decoder::new` and walks the decoder, copying each
/// frame's `dimensions()`, `timestamp()` and `data()`. Trusted: the answer is a function of
/// the bytes.
#[verifier::external_body]
pub(crate) fn animation_frames(data: &[u8]) -> (r: Result<Vec<AnimFrame>, String>)
    ensures
        frames_view(r) == animation_of(data@),
{
    let decoder = webp_animation::Decoder::new(data).map_err(|e| e.to_string())?;
    Ok(
        decoder.into_iter().map(
            |f| AnimFrame {
                width: f.dimensions().0,
                height: f.dimensions().1,
                timestamp: f.timestamp(),
                pixels: f.data().to_vec(),
            },
        ).collect(),
    )
}

/// Writes the pixels of one frame as WebP: `image::RgbaImage::from_raw` and
/// `ImageBuffer::write_to`. Trusted: the answer is a function of the arguments.
#[verifier::external_body]
pub(crate) fn frame_to_webp(pixels: &[u8], width: u32, height: u32) -> (r: Result<Vec<u8>, String>)
    requires
        pixels@.len() == 4 * width * height,
    ensures
        bytes_view(r) == frame_as_webp(pixels@, width, height),
{
    let frame = image::RgbaImage::from_raw(width, height, pixels.to_vec()).ok_or_else(String::new)?;
    let mut out = std::io::Cursor::new(Vec::new());
    frame.write_to(&mut out, image::ImageFormat::WebP).map_err(|e| e.to_string())?;
    Ok(out.into_inner())
}

/// Resamples one frame that is held as WebP: the image is read (`image::load_from_memory`),
/// resampled (`resize_exact`), written as WebP again (`write_to`) and decoded with
/// `webp_animation::Decoder`, whose first frame's `data()` is the answer. Trusted: the answer
/// is a function of the arguments.
#[verifier::external_body]
pub(crate) fn resize_frame(webp: &[u8], width: u32, height: u32, filter: Filter) -> (r: Result<
    Vec<u8>,
    String,
>)
    requires
        1 <= width <= MAX_WEBP_SIDE,
        1 <= height <= MAX_WEBP_SIDE,
        width * height <= MAX_PIXELS,
    ensures
        bytes_view(r) == frame_resized(webp@, width, height, filter),
{
    let filter = match filter {
        Filter::Triangle => image::imageops::FilterType::Triangle,
        Filter::Lanczos3 => image::imageops::FilterType::Lanczos3,
    };
    let img = image::load_from_memory(webp).map_err(|e| e.to_string())?;
    let mut out = std::io::Cursor::new(Vec::new());
    let small = img.resize_exact(width, height, filter);
    small.write_to(&mut out, image::ImageFormat::WebP).map_err(|e| e.to_string())?;
    let bytes = out.into_inner();
    let decoder = webp_animation::Decoder::new(&bytes).map_err(|e| e.to_string())?;
    decoder.into_iter().next().map(|f| f.data().to_vec()).ok_or_else(String::new)
}

/// Makes an encoder with `webp_animation::Encoder::new_with_options`: a lossy encoding
/// configuration with the given quality, segments and alpha compression, the given key-frame
/// distances, and defaults for the rest. Trusted: whether an encoder is handed out is a
/// function of the setup, and one that is has taken no frame yet and remembers what it was
/// made with.
#[verifier::external_body]
pub(crate) fn animation_encoder(setup: AnimSetup) -> (r: Result<webp_animation::Encoder, String>)
    ensures
        match r {
            Ok(encoder) => encoder_made(setup) is Ok && encoder_setup(encoder) == setup
                && encoder_frames(encoder).len() == 0,
            Err(e) => encoder_made(setup) == Err::<(), Seq<char>>(e@),
        },
{
    let lossy = webp_animation::LossyEncodingConfig {
        segments: setup.segments,
        alpha_compression: setup.alpha_compression,
        ..Default::default()
    };
    let encoding_type = webp_animation::EncodingType::Lossy(lossy);
    let quality = setup.quality.into();
    let config = webp_animation::EncodingConfig { quality, encoding_type, ..Default::default() };
    let (kmin, kmax, encoding_config) = (setup.kmin, setup.kmax, Some(config));
    let options = webp_animation::EncoderOptions { kmin, kmax, encoding_config, ..Default::default() };
    let canvas = (setup.width, setup.height);
    webp_animation::Encoder::new_with_options(canvas, options).map_err(|e| e.to_string())
}

/// Calls `webp_animation::Encoder::add_frame`. Trusted: whether the frame is taken is a
/// function of the encoder's setup, its frames so far and the frame handed in (the source
/// refuses a time that is not above that of the frame before, and pixels whose count does not
/// match the canvas); where it is taken the encoder holds that one frame more, and its setup
/// is the same either way.
#[verifier::external_body]
pub(crate) fn add_frame(encoder: &mut webp_animation::Encoder, pixels: &[u8], timestamp: i32) -> (r:
    Result<(), String>)
    ensures
        encoder_setup(*final(encoder)) == encoder_setup(*old(encoder)),
        match r {
            Ok(_) => frame_taken(
                encoder_setup(*old(encoder)),
                encoder_frames(*old(encoder)),
                pixels@,
                timestamp,
            ) is Ok && encoder_frames(*final(encoder)) == encoder_frames(*old(encoder)).push(
                (pixels@, timestamp),
            ),
            Err(e) => frame_taken(
                encoder_setup(*old(encoder)),
                encoder_frames(*old(encoder)),
                pixels@,
                timestamp,
            ) == Err::<(), Seq<char>>(e@),
        },
{
    encoder.add_frame(pixels, timestamp).map_err(|e| e.to_string())
}

/// Calls `webp_animation::Encoder::finalize` and copies the bytes out. Trusted: the answer is
/// a function of what the encoder was made with, the frames it took and the end time.
#[verifier::external_body]
pub(crate) fn finish_animation(encoder: webp_animation::Encoder, end: i32) -> (r: Result<
    Vec<u8>,
    String,
>)
    ensures
        bytes_view(r) == animation_bytes(encoder_setup(encoder), encoder_frames(encoder), end),
{
    encoder.finalize(end).map(|d| d.to_vec()).map_err(|e| e.to_string())
}

/// Reads the PNG with `png::Decoder::new(..).read_info()`, decodes its first frame with
/// `Reader::next_frame` into a buffer of `output_buffer_size()` bytes, and copies width,
/// height, colour type and bit depth out of `Reader::info()`. Trusted: the answer is a
/// function of the bytes.
#[verifier::external_body]
pub(crate) fn png_decode(data: &[u8]) -> (r: Result<PngImage, String>)
    ensures
        png_view(r) == png_decoded(data@),
{
    let mut reader = png::Decoder::new(std::io::Cursor::new(data)).read_info().map_err(
        |e| e.to_string(),
    )?;
    let mut pixels = vec![0; reader.output_buffer_size().ok_or_else(String::new)?];
    reader.next_frame(&mut pixels).map_err(|e| e.to_string())?;
    let info = reader.info();
    let color = match info.color_type {
        png::ColorType::Grayscale => PngColor::Grayscale,
        png::ColorType::Rgb => PngColor::Rgb,
        png::ColorType::Indexed => PngColor::Indexed,
        png::ColorType::GrayscaleAlpha => PngColor::GrayscaleAlpha,
        png::ColorType::Rgba => PngColor::Rgba,
    };
    Ok(PngImage { width: info.width, height: info.height, color, bits: info.bit_depth as u8, pixels })
}

/// Resamples one-byte grey pixels with `resize::new(.., Pixel::Gray8, ..)` and
/// `Resizer::resize` into a fresh buffer of `len` bytes. Trusted: the answer is a function of
/// the arguments.
#[verifier::external_body]
pub(crate) fn resize_gray8(
    src: &[u8],
    w1: usize,
    h1: usize,
    w2: usize,
    h2: usize,
    filter: Filter,
    len: usize,
) -> (r: Result<Vec<u8>, String>)
    requires
        src@.len() == w1 * h1,
        len == w2 * h2,
    ensures
        bytes_view(r) == samples_resized(src@, 1, w1, h1, w2, h2, filter),
{
    let filter = match filter {
        Filter::Triangle => resize::Type::Triangle,
        Filter::Lanczos3 => resize::Type::Lanczos3,
    };
    let mut dst = vec![0u8; len];
    resize::new(w1, h1, w2, h2, resize::Pixel::Gray8, filter).map_err(|e| e.to_string())?.resize(
        src.as_gray(),
        dst.as_gray_mut(),
    ).map_err(|e| e.to_string())?;
    Ok(dst)
}

/// Resamples three-byte pixels with `resize::new(.., Pixel::RGB8, ..)` and `Resizer::resize`
/// into a fresh buffer of `len` bytes. Trusted: the answer is a function of the arguments.
#[verifier::external_body]
pub(crate) fn resize_rgb8(
    src: &[u8],
    w1: usize,
    h1: usize,
    w2: usize,
    h2: usize,
    filter: Filter,
    len: usize,
) -> (r: Result<Vec<u8>, String>)
    requires
        src@.len() == w1 * h1 * 3,
        len == w2 * h2 * 3,
    ensures
        bytes_view(r) == samples_resized(src@, 3, w1, h1, w2, h2, filter),
{
    let filter = match filter {
        Filter::Triangle => resize::Type::Triangle,
        Filter::Lanczos3 => resize::Type::Lanczos3,
    };
    let mut dst = vec![0u8; len];
    resize::new(w1, h1, w2, h2, resize::Pixel::RGB8, filter).map_err(|e| e.to_string())?.resize(
        src.as_rgb(),
        dst.as_rgb_mut(),
    ).map_err(|e| e.to_string())?;
    Ok(dst)
}

/// Resamples four-byte pixels with `resize::new(.., Pixel::RGBA8, ..)` and `Resizer::resize`
/// into a fresh buffer of `len` bytes. Trusted: the answer is a function of the arguments.
#[verifier::external_body]
pub(crate) fn resize_rgba8(
    src: &[u8],
    w1: usize,
    h1: usize,
    w2: usize,
    h2: usize,
    filter: Filter,
    len: usize,
) -> (r: Result<Vec<u8>, String>)
    requires
        src@.len() == w1 * h1 * 4,
        len == w2 * h2 * 4,
    ensures
        bytes_view(r) == samples_resized(src@, 4, w1, h1, w2, h2, filter),
{
    let filter = match filter {
        Filter::Triangle => resize::Type::Triangle,
        Filter::Lanczos3 => resize::Type::Lanczos3,
    };
    let mut dst = vec![0u8; len];
    resize::new(w1, h1, w2, h2, resize::Pixel::RGBA8, filter).map_err(|e| e.to_string())?.resize(
        src.as_rgba(),
        dst.as_rgba_mut(),
    ).map_err(|e| e.to_string())?;
    Ok(dst)
}

/// Writes a PNG with `png::Encoder`: `set_color`, `set_depth`, `write_header`,
/// `write_image_data` and `finish`. The bound keeps the encoder's row arithmetic from
/// overflowing. Trusted: the answer is a function of the arguments.
#[verifier::external_body]
pub(crate) fn png_encode(pixels: &[u8], width: u32, height: u32, color: PngColor, bits: u8) -> (r:
    Result<Vec<u8>, String>)
    requires
        width * height <= MAX_PIXELS,
    ensures
        bytes_view(r) == png_encoded(pixels@, width, height, color, bits),
{
    let color = match color {
        PngColor::Grayscale => png::ColorType::Grayscale,
        PngColor::Rgb => png::ColorType::Rgb,
        PngColor::Indexed => png::ColorType::Indexed,
        PngColor::GrayscaleAlpha => png::ColorType::GrayscaleAlpha,
        PngColor::Rgba => png::ColorType::Rgba,
    };
    let mut out = Vec::new();
    let mut encoder = png::Encoder::new(&mut out, width, height);
    encoder.set_color(color);
    encoder.set_depth(png::BitDepth::from_u8(bits).ok_or_else(String::new)?);
    let mut writer = encoder.write_header().map_err(|e| e.to_string())?;
    writer.write_image_data(pixels).map_err(|e| e.to_string())?;
    writer.finish().map_err(|e| e.to_string())?;
    Ok(out)
}

/// Opens the GIF with `gif::DecodeOptions` (indexed colour output, the given memory limit
/// and tolerance of unknown blocks) and `read_info`, then reads the first frame with
/// `read_next_frame`. Trusted: the answer is a function of the arguments.
#[verifier::external_body]
pub(crate) fn gif_probe(data: &[u8], memory_limit: u64, allow_unknown_blocks: bool) -> (r: GifProbe)
    requires
        memory_limit > 0,
    ensures
        r == gif_probed(data@, memory_limit, allow_unknown_blocks),
{
    let mut options = gif::DecodeOptions::new();
    options.set_color_output(gif::ColorOutput::Indexed);
    options.set_memory_limit(
        gif::MemoryLimit::Bytes(std::num::NonZeroU64::new(memory_limit).unwrap()),
    );
    options.allow_unknown_blocks(allow_unknown_blocks);
    match options.read_info(std::io::Cursor::new(data)) {
        Err(_) => GifProbe::Unreadable,
        Ok(mut reader) => match reader.read_next_frame() {
            Ok(Some(frame)) => GifProbe::Frame(frame.width, frame.height),
            Ok(None) => GifProbe::NoFrame,
            Err(_) => GifProbe::BadFrame,
        },
    }
}

/// Renders an SVG at its own size: parses it with `usvg::Tree::from_data` after loading the
/// system's fonts into the options, draws it with `resvg::render` on a `tiny_skia::Pixmap`
/// of the tree's size, and encodes the pixmap with `encode_png`. The fonts are those of the
/// machine, so nothing is promised of the bytes.
#[verifier::external_body]
pub(crate) fn rasterize_svg(data: &[u8]) -> (r: Result<Vec<u8>, String>) {
    let mut options = usvg::Options::default();
    options.fontdb_mut().load_system_fonts();
    let tree = usvg::Tree::from_data(data, &options).map_err(|e| e.to_string())?;
    let size = tree.size().to_int_size();
    let mut pixmap = tiny_skia::Pixmap::new(size.width(), size.height()).ok_or_else(String::new)?;
    resvg::render(&tree, tiny_skia::Transform::default(), &mut pixmap.as_mut());
    pixmap.encode_png().map_err(|e| e.to_string())
}

/// The most pixels that a rendition may have: the memory cap of the GIF reader, 8000 by
/// 8000.
pub const MAX_PIXELS: u64 = 64000000;

/// The longest side that the WebP format holds.
pub const MAX_WEBP_SIDE: u32 = 16383;

} // verus!
