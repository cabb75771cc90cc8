//! The media transform engine: the fit rule that every resizer shares, the detection of
//! animated WebP, and the resizers for each format.

use crate::codec::{
    add_frame, animation_bytes, animation_encoder, animation_frames, animation_of, bytes_view,
    decode_size, decoded_size, encoder_frames, encoder_made, encoder_setup, finish_animation,
    frame_as_webp, frame_resized, frame_taken, frame_to_webp, gif_probe, gif_probed,
    lossless_webp_of, png_decode, png_decoded, png_encode, png_encoded, rasterize_svg,
    resize_frame, resize_gray8, resize_rgb8, resize_rgba8, resize_to_webp, samples_resized,
    sniff_size, sniffed_size, thumbnail, thumbnail_of, AnimFrame, AnimFrameView, AnimSetup, Filter,
    GifProbe, ImageFormat, PngColor, PngImageView, MAX_PIXELS, MAX_WEBP_SIDE,
};
use vstd::prelude::*;

verus! {

/// `x`, or 1 where `x` is smaller.
pub open spec fn at_least_one(x: int) -> int {
    if x < 1 {
        1
    } else {
        x
    }
}

/// A side divided by a whole number.
pub open spec fn scaled(side: int, divisor: int) -> int {
    side / divisor
}

/// The longer of two sides.
pub open spec fn longer(w: int, h: int) -> int {
    if w >= h {
        w
    } else {
        h
    }
}

/// The fit rule: the size that an image of `w` by `h` is brought to for a requested width
/// `target`.
///
/// A square image becomes `target` by `target`. Of any other image whose longer side is
/// above `target`, both sides are divided by the whole number of times that `target` goes
/// into the longer side; an image with both sides within `target` keeps its size. No side of
/// the result is below 1.
pub open spec fn fit(w: int, h: int, target: int) -> (int, int) {
    let (a, b) = if w == h {
        (target, target)
    } else if longer(w, h) > target {
        (scaled(w, longer(w, h) / target), scaled(h, longer(w, h) / target))
    } else {
        (w, h)
    };
    (at_least_one(a), at_least_one(b))
}

/// Applies the fit rule: see [`fit`].
pub fn calculate_dimensions(imgw: u32, imgh: u32, width: u32) -> (r: (u32, u32))
    requires
        width >= 1,
    ensures
        (r.0 as int, r.1 as int) == fit(imgw as int, imgh as int, width as int),
{
    let long: u32 = if imgw >= imgh {
        imgw
    } else {
        imgh
    };
    let (a, b): (u32, u32) = if imgh == imgw {
        (width, width)
    } else if long > width {
        proof {
            lemma_quotient_bounds(long as int, 0, width as int);
        }
        let d: u32 = long / width;
        (imgw / d, imgh / d)
    } else {
        (imgw, imgh)
    };
    (if a < 1 { 1 } else { a }, if b < 1 { 1 } else { b })
}

/// Dividing by the whole number of times that `target` goes into a longer side `long`:
/// the divisor is at least 1, the long side stays between 1 and itself, and any other side
/// does not grow.
pub proof fn lemma_quotient_bounds(long: int, other: int, target: int)
    requires
        1 <= target < long,
        0 <= other,
    ensures
        1 <= long / target <= long,
        1 <= long / (long / target) <= long,
        0 <= other / (long / target) <= other,
{
    let d = long / target;
    assert(1 <= d <= long) by (nonlinear_arith)
        requires
            1 <= target < long,
            d == long / target,
    ;
    assert(1 <= long / d <= long) by (nonlinear_arith)
        requires
            1 <= d <= long,
    ;
    assert(0 <= other / d <= other) by (nonlinear_arith)
        requires
            1 <= d,
            0 <= other,
    ;
}

/// The fit rule never enlarges a side beyond the larger of that side and the target.
pub proof fn lemma_fit_never_upscales(w: int, h: int, target: int)
    requires
        0 <= w,
        0 <= h,
        1 <= target,
    ensures
        fit(w, h, target).0 <= if w >= target { w } else { target },
        fit(w, h, target).1 <= if h >= target { h } else { target },
        fit(w, h, target).0 >= 1,
        fit(w, h, target).1 >= 1,
{
    if w != h && longer(w, h) > target {
        lemma_quotient_bounds(longer(w, h), w, target);
        lemma_quotient_bounds(longer(w, h), h, target);
    }
}

/// The longer side governs: of an image that is not square and whose longer side is above
/// the target, the longer side comes out at the target or above it and below twice the
/// target, and the other side does not come out longer than it.
pub proof fn lemma_fit_longer_side(w: int, h: int, target: int)
    requires
        0 <= w,
        0 <= h,
        w != h,
        1 <= target < longer(w, h),
    ensures
        target <= longer(fit(w, h, target).0, fit(w, h, target).1) < 2 * target,
        w > h ==> fit(w, h, target).0 >= fit(w, h, target).1,
        h > w ==> fit(w, h, target).1 >= fit(w, h, target).0,
{
    let long = longer(w, h);
    let short = if w > h { h } else { w };
    let d = long / target;
    lemma_quotient_bounds(long, short, target);
    assert(target <= long / d < 2 * target && short / d <= long / d) by (nonlinear_arith)
        requires
            1 <= target < long,
            d == long / target,
            0 <= short <= long,
    ;
}

/// An image that is not square, has no empty side and lies within the target keeps its size.
pub proof fn lemma_fit_keeps_small(w: int, h: int, target: int)
    requires
        1 <= w <= target,
        1 <= h <= target,
        w != h,
    ensures
        fit(w, h, target) == (w, h),
{
}

/// A square image is brought to the target on both sides.
pub proof fn lemma_fit_square(w: int, target: int)
    requires
        1 <= target,
    ensures
        fit(w, w, target) == (target, target),
{
}

/// Why a transform gave no rendition.
#[derive(Debug)]
pub enum TransformError {
    /// A codec refused its input; the text is the codec's message.
    Codec(String),
    /// The rendition would hold more pixels than [`MAX_PIXELS`], or have a side that its
    /// format cannot hold.
    TooLarge,
    /// The PNG's samples are not eight bits deep.
    UnsupportedDepth,
    /// Decoded pixels do not fill the size that came with them.
    Malformed,
    /// The animation holds no frame.
    NoFrames,
    /// The end time of the animation does not fit in 32 bits.
    TimeOverflow,
}

/// What contracts say of a [`TransformError`].
pub enum TransformErrorView {
    Codec(Seq<char>),
    TooLarge,
    UnsupportedDepth,
    Malformed,
    NoFrames,
    TimeOverflow,
}

impl View for TransformError {
    type V = TransformErrorView;

    open spec fn view(&self) -> TransformErrorView {
        match self {
            TransformError::Codec(m) => TransformErrorView::Codec(m@),
            TransformError::TooLarge => TransformErrorView::TooLarge,
            TransformError::UnsupportedDepth => TransformErrorView::UnsupportedDepth,
            TransformError::Malformed => TransformErrorView::Malformed,
            TransformError::NoFrames => TransformErrorView::NoFrames,
            TransformError::TimeOverflow => TransformErrorView::TimeOverflow,
        }
    }
}

impl TransformErrorView {
    /// The text of the error: a codec's own message, or a fixed one.
    pub open spec fn message(self) -> Seq<char> {
        match self {
            TransformErrorView::Codec(m) => m,
            TransformErrorView::TooLarge => "rendition too large"@,
            TransformErrorView::UnsupportedDepth => "unsupported sample depth"@,
            TransformErrorView::Malformed => "pixels do not match the image size"@,
            TransformErrorView::NoFrames => "animation without frames"@,
            TransformErrorView::TimeOverflow => "animation end time out of range"@,
        }
    }
}

impl TransformError {
    /// The text of the error.
    pub fn message(&self) -> (r: String)
        ensures
            r@ == self@.message(),
    {
        match self {
            TransformError::Codec(m) => m.clone(),
            TransformError::TooLarge => "rendition too large".to_owned(),
            TransformError::UnsupportedDepth => "unsupported sample depth".to_owned(),
            TransformError::Malformed => "pixels do not match the image size".to_owned(),
            TransformError::NoFrames => "animation without frames".to_owned(),
            TransformError::TimeOverflow => "animation end time out of range".to_owned(),
        }
    }
}

/// What a resizer's answer says to contracts.
pub type Rendition = Result<Seq<u8>, TransformErrorView>;

/// The view of a resizer's answer.
pub open spec fn rendition_view(r: Result<Vec<u8>, TransformError>) -> Rendition {
    match r {
        Ok(v) => Ok(v@),
        Err(e) => Err(e@),
    }
}

/// A codec's answer as a resizer's: the bytes, or the codec's message as the error.
pub open spec fn from_codec(r: Result<Seq<u8>, Seq<char>>) -> Rendition {
    match r {
        Ok(v) => Ok(v),
        Err(m) => Err(TransformErrorView::Codec(m)),
    }
}

/// What a resizer does with an image once its size is known.
#[derive(Debug, Clone, Copy, PartialEq, Eq, Structural)]
pub enum ResizePlan {
    /// Hand the bytes back as they are.
    Keep,
    /// Resample to this width and height.
    Resize(u32, u32),
    /// Refuse: the rendition would be too large.
    TooLarge,
}

/// What a resizer does with an image of `w` by `h` for a requested `width`, where no side of
/// a rendition may exceed `max_side`.
///
/// Width 0 asks for no rendition, and an image that already has the requested width is not
/// encoded again: both keep the bytes. Else the fit rule gives the size.
pub open spec fn resize_plan(w: u32, h: u32, width: u32, max_side: u32) -> ResizePlan {
    if width == 0 || w == width {
        ResizePlan::Keep
    } else {
        let (a, b) = fit(w as int, h as int, width as int);
        if a > max_side || b > max_side || a * b > MAX_PIXELS {
            ResizePlan::TooLarge
        } else {
            ResizePlan::Resize(a as u32, b as u32)
        }
    }
}

/// Decides what to do with an image of `imgw` by `imgh`: see [`resize_plan`].
pub fn plan_resize(imgw: u32, imgh: u32, width: u32, max_side: u32) -> (r: ResizePlan)
    ensures
        r == resize_plan(imgw, imgh, width, max_side),
        r matches ResizePlan::Resize(a, b) ==> 1 <= a <= max_side && 1 <= b <= max_side && a * b
            <= MAX_PIXELS,
{
    if width == 0 || imgw == width {
        return ResizePlan::Keep;
    }
    let (a, b) = calculate_dimensions(imgw, imgh, width);
    proof {
        lemma_fit_never_upscales(imgw as int, imgh as int, width as int);
        assert(0 <= (a as int) * (b as int) <= 0xffff_ffff * 0xffff_ffff) by (nonlinear_arith)
            requires
                0 <= a <= 0xffff_ffff,
                0 <= b <= 0xffff_ffff,
        ;
    }
    if a > max_side || b > max_side || (a as u64) * (b as u64) > MAX_PIXELS {
        ResizePlan::TooLarge
    } else {
        ResizePlan::Resize(a, b)
    }
}

/// A copy of `data`.
pub fn copy_bytes(data: &[u8]) -> (r: Vec<u8>)
    ensures
        r@ == data@,
{
    let mut out: Vec<u8> = Vec::new();
    let mut i: usize = 0;
    while i < data.len()
        invariant
            i <= data.len(),
            out@ == data@.take(i as int),
        decreases data.len() - i,
    {
        out.push(data[i]);
        assert(data@.take(i + 1) =~= data@.take(i as int).push(data@[i as int]));
        i += 1;
    }
    assert(data@.take(data@.len() as int) =~= data@);
    out
}

/// What the generic resizer answers: see [`resize_static`].
pub open spec fn static_resized(data: Seq<u8>, width: u32, format: ImageFormat) -> Rendition {
    if format == ImageFormat::WebP {
        webp_resized(data, width, animated_webp(data))
    } else if width == 0 {
        Ok(data)
    } else {
        match decoded_size(data, format) {
            Err(m) => Err(TransformErrorView::Codec(m)),
            Ok((w, h)) => match resize_plan(w, h, width, u32::MAX) {
                ResizePlan::Keep => Ok(data),
                ResizePlan::TooLarge => Err(TransformErrorView::TooLarge),
                ResizePlan::Resize(a, b) => from_codec(thumbnail_of(data, format, a, b)),
            },
        }
    }
}

/// The generic resizer: decodes `data` in `format`, scales the image down to the size that
/// the fit rule gives for `width`, and encodes it in `format` again. WebP is handed to the
/// WebP resizer, as an animation where the container holds one.
///
/// Width 0 and an image that already has the requested width give the bytes back untouched.
pub fn resize_static(data: &[u8], width: u32, format: ImageFormat) -> (r: Result<
    Vec<u8>,
    TransformError,
>)
    ensures
        rendition_view(r) == static_resized(data@, width, format),
{
    if let ImageFormat::WebP = format {
        return resize_webp(data, width, is_webp_animated(data));
    }
    if width == 0 {
        return Ok(copy_bytes(data));
    }
    let (w, h) = match decode_size(data, format) {
        Ok(size) => size,
        Err(m) => {
            return Err(TransformError::Codec(m));
        },
    };
    match plan_resize(w, h, width, u32::MAX) {
        ResizePlan::Keep => Ok(copy_bytes(data)),
        ResizePlan::TooLarge => Err(TransformError::TooLarge),
        ResizePlan::Resize(a, b) => match thumbnail(data, format, a, b) {
            Ok(bytes) => Ok(bytes),
            Err(m) => Err(TransformError::Codec(m)),
        },
    }
}

/// An image that already has the requested width is handed back byte for byte by the
/// generic resizer. (For WebP, which goes to the WebP resizer, see
/// [`lemma_webp_keeps_width`].)
pub proof fn lemma_static_keeps_width(data: Seq<u8>, width: u32, format: ImageFormat, height: u32)
    requires
        format != ImageFormat::WebP,
        decoded_size(data, format) == Ok::<(u32, u32), Seq<char>>((width, height)),
    ensures
        static_resized(data, width, format) == Ok::<Seq<u8>, TransformErrorView>(data),
{
}

/// How many samples a PNG pixel of this layout has.
pub open spec fn samples_of(color: PngColor) -> u8 {
    match color {
        PngColor::Grayscale => 1,
        PngColor::Indexed => 1,
        PngColor::GrayscaleAlpha => 2,
        PngColor::Rgb => 3,
        PngColor::Rgba => 4,
    }
}

/// What the PNG resizer makes of a decoded image that is to be resampled to `a` by `b`.
///
/// Palette and grey-with-alpha images go through the generic resizer. Of the rest, only
/// samples of eight bits are resampled.
pub open spec fn png_resampled(data: Seq<u8>, width: u32, img: PngImageView, a: u32, b: u32)
    -> Rendition {
    if img.color == PngColor::Indexed || img.color == PngColor::GrayscaleAlpha {
        static_resized(data, width, ImageFormat::Png)
    } else if img.bits != 8 {
        Err(TransformErrorView::UnsupportedDepth)
    } else if img.pixels.len() != img.width * img.height * samples_of(img.color) {
        Err(TransformErrorView::Malformed)
    } else {
        match samples_resized(
            img.pixels,
            samples_of(img.color),
            img.width as usize,
            img.height as usize,
            a as usize,
            b as usize,
            Filter::Triangle,
        ) {
            Err(m) => Err(TransformErrorView::Codec(m)),
            Ok(px) => from_codec(png_encoded(px, a, b, img.color, 8)),
        }
    }
}

/// What the PNG resizer answers: see [`resize_png`].
pub open spec fn png_resized(data: Seq<u8>, width: u32) -> Rendition {
    if width == 0 {
        Ok(data)
    } else {
        match png_decoded(data) {
            Err(m) => Err(TransformErrorView::Codec(m)),
            Ok(img) => match resize_plan(img.width, img.height, width, u32::MAX) {
                ResizePlan::Keep => Ok(data),
                ResizePlan::TooLarge => Err(TransformErrorView::TooLarge),
                ResizePlan::Resize(a, b) => png_resampled(data, width, img, a, b),
            },
        }
    }
}

/// The PNG resizer: decodes the first frame, resamples its samples with a triangle filter to
/// the size that the fit rule gives for `width`, and writes a PNG of the same colour layout.
///
/// Width 0 and an image that already has the requested width give the bytes back untouched.
pub fn resize_png(data: &[u8], width: u32) -> (r: Result<Vec<u8>, TransformError>)
    ensures
        rendition_view(r) == png_resized(data@, width),
{
    if width == 0 {
        return Ok(copy_bytes(data));
    }
    let img = match png_decode(data) {
        Ok(img) => img,
        Err(m) => {
            return Err(TransformError::Codec(m));
        },
    };
    let (a, b) = match plan_resize(img.width, img.height, width, u32::MAX) {
        ResizePlan::Keep => {
            return Ok(copy_bytes(data));
        },
        ResizePlan::TooLarge => {
            return Err(TransformError::TooLarge);
        },
        ResizePlan::Resize(a, b) => (a, b),
    };
    let samples: u8 = match img.color {
        PngColor::Indexed | PngColor::GrayscaleAlpha => {
            return resize_static(data, width, ImageFormat::Png);
        },
        PngColor::Grayscale => 1,
        PngColor::Rgb => 3,
        PngColor::Rgba => 4,
    };
    if img.bits != 8 {
        return Err(TransformError::UnsupportedDepth);
    }
    let ghost area = img.width * img.height;
    assert(0 <= area <= 0xffff_ffff * 0xffff_ffff) by (nonlinear_arith)
        requires
            area == img.width * img.height,
            0 <= img.width <= 0xffff_ffff,
            0 <= img.height <= 0xffff_ffff,
    ;
    assert(samples <= 4);
    assert(0 <= area * samples <= 0xffff_ffff * 0xffff_ffff * 4 && area * samples == img.width
        * img.height * samples) by (nonlinear_arith)
        requires
            area == img.width * img.height,
            0 <= area <= 0xffff_ffff * 0xffff_ffff,
            0 <= samples <= 4,
    ;
    let pixel_count: u128 = (img.width as u128) * (img.height as u128);
    let expected: u128 = pixel_count * (samples as u128);
    if img.pixels.len() as u128 != expected {
        return Err(TransformError::Malformed);
    }
    let (w1, h1, w2, h2) = (img.width as usize, img.height as usize, a as usize, b as usize);
    let ghost rendition = a * b;
    assert(rendition * samples == a * b * samples) by (nonlinear_arith)
        requires
            rendition == a * b,
    ;
    let len: usize = (((a as u64) * (b as u64)) * (samples as u64)) as usize;
    let src = img.pixels.as_slice();
    let resampled = match img.color {
        PngColor::Grayscale => resize_gray8(src, w1, h1, w2, h2, Filter::Triangle, len),
        PngColor::Rgb => resize_rgb8(src, w1, h1, w2, h2, Filter::Triangle, len),
        _ => resize_rgba8(src, w1, h1, w2, h2, Filter::Triangle, len),
    };
    match resampled {
        Err(m) => Err(TransformError::Codec(m)),
        Ok(px) => match png_encode(px.as_slice(), a, b, img.color, 8) {
            Ok(bytes) => Ok(bytes),
            Err(m) => Err(TransformError::Codec(m)),
        },
    }
}

/// A PNG that already has the requested width is handed back byte for byte.
pub proof fn lemma_png_keeps_width(data: Seq<u8>, width: u32, img: PngImageView)
    requires
        png_decoded(data) == Ok::<PngImageView, Seq<char>>(img),
        img.width == width,
    ensures
        png_resized(data, width) == Ok::<Seq<u8>, TransformErrorView>(data),
{
}

/// The four bytes `RIFF`.
pub open spec fn riff_tag() -> Seq<u8> {
    seq![0x52u8, 0x49u8, 0x46u8, 0x46u8]
}

/// The four bytes `WEBP`.
pub open spec fn webp_tag() -> Seq<u8> {
    seq![0x57u8, 0x45u8, 0x42u8, 0x50u8]
}

/// The four bytes `VP8X`.
pub open spec fn vp8x_tag() -> Seq<u8> {
    seq![0x56u8, 0x50u8, 0x38u8, 0x58u8]
}

/// The four bytes `ANIM`.
pub open spec fn anim_tag() -> Seq<u8> {
    seq![0x41u8, 0x4eu8, 0x49u8, 0x4du8]
}

/// The container holds an animated WebP: a RIFF header, the WEBP form type at offset 8, an
/// extended-format chunk at offset 12 and an animation chunk at offset 30. A container too
/// short to hold them is not one.
pub open spec fn animated_webp(data: Seq<u8>) -> bool {
    &&& data.len() >= 34
    &&& data.subrange(0, 4) == riff_tag()
    &&& data.subrange(8, 12) == webp_tag()
    &&& data.subrange(12, 16) == vp8x_tag()
    &&& data.subrange(30, 34) == anim_tag()
}

/// Whether the four bytes of `data` from `at` on are `a`, `b`, `c`, `d`.
fn tag_at(data: &[u8], at: usize, a: u8, b: u8, c: u8, d: u8) -> (r: bool)
    requires
        at + 4 <= data@.len(),
    ensures
        r == (data@.subrange(at as int, at + 4) == seq![a, b, c, d]),
{
    let r = data[at] == a && data[at + 1] == b && data[at + 2] == c && data[at + 3] == d;
    proof {
        let got = data@.subrange(at as int, at + 4);
        let want = seq![a, b, c, d];
        if r {
            assert(got =~= want);
        } else {
            assert(got[0] == data@[at as int]);
            assert(got[1] == data@[at + 1]);
            assert(got[2] == data@[at + 2]);
            assert(got[3] == data@[at + 3]);
        }
    }
    r
}

/// Whether `data` holds an animated WebP: see [`animated_webp`].
pub fn is_webp_animated(data: &[u8]) -> (r: bool)
    ensures
        r == animated_webp(data@),
{
    if data.len() < 34 {
        return false;
    }
    let riff = tag_at(data, 0, 0x52, 0x49, 0x46, 0x46);
    let webp = tag_at(data, 8, 0x57, 0x45, 0x42, 0x50);
    let vp8x = tag_at(data, 12, 0x56, 0x50, 0x38, 0x58);
    let anim = tag_at(data, 30, 0x41, 0x4e, 0x49, 0x4d);
    riff && webp && anim && vp8x
}

/// The settings of the animation encoder for a canvas of `width` by `height`: lossy at
/// quality 75 with two segments and compressed alpha, key frames three to five frames apart.
pub open spec fn animation_setup(width: u32, height: u32) -> AnimSetup {
    AnimSetup {
        width,
        height,
        kmin: 3,
        kmax: 5,
        quality: 75,
        segments: 2,
        alpha_compression: true,
    }
}

/// The settings of the animation encoder: see [`animation_setup`].
pub fn encoder_settings(width: u32, height: u32) -> (r: AnimSetup)
    ensures
        r == animation_setup(width, height),
{
    AnimSetup { width, height, kmin: 3, kmax: 5, quality: 75, segments: 2, alpha_compression: true }
}

/// The frames that the encoder holds once each of `frames` has been resampled to the canvas
/// and handed to it, given that it holds `taken` before; the first failure where a frame is
/// malformed or refused.
pub open spec fn feed_frames(
    setup: AnimSetup,
    frames: Seq<AnimFrameView>,
    taken: Seq<(Seq<u8>, i32)>,
) -> Result<Seq<(Seq<u8>, i32)>, TransformErrorView>
    decreases frames.len(),
{
    if frames.len() == 0 {
        Ok(taken)
    } else {
        let f = frames[0];
        if f.pixels.len() != 4 * f.width * f.height {
            Err(TransformErrorView::Malformed)
        } else {
            match frame_as_webp(f.pixels, f.width, f.height) {
                Err(m) => Err(TransformErrorView::Codec(m)),
                Ok(webp) => match frame_resized(
                    webp,
                    setup.width,
                    setup.height,
                    Filter::Lanczos3,
                ) {
                    Err(m) => Err(TransformErrorView::Codec(m)),
                    Ok(px) => match frame_taken(setup, taken, px, f.timestamp) {
                        Err(m) => Err(TransformErrorView::Codec(m)),
                        Ok(_) => feed_frames(
                            setup,
                            frames.skip(1),
                            taken.push((px, f.timestamp)),
                        ),
                    },
                },
            }
        }
    }
}

/// The time at which the animation ends: the time of the last frame multiplied by the
/// number of frames; `None` where that does not fit in 32 bits.
pub open spec fn end_time(frames: Seq<AnimFrameView>) -> Option<i32> {
    let t = frames.last().timestamp * frames.len();
    if i32::MIN <= t <= i32::MAX {
        Some(t as i32)
    } else {
        None
    }
}

/// Whether a canvas is one that WebP can hold and a rendition may have: no side is empty or
/// beyond [`MAX_WEBP_SIDE`], and the pixels are no more than [`MAX_PIXELS`].
pub open spec fn canvas_fits(width: u32, height: u32) -> bool {
    1 <= width <= MAX_WEBP_SIDE && 1 <= height <= MAX_WEBP_SIDE && width * height <= MAX_PIXELS
}

/// The animation of `frames` encoded on the canvas of `setup`, each frame at its own time;
/// no side of the canvas may be empty or beyond what WebP holds.
pub open spec fn animation_resized(frames: Seq<AnimFrameView>, setup: AnimSetup) -> Rendition {
    if !canvas_fits(setup.width, setup.height) {
        Err(TransformErrorView::TooLarge)
    } else if frames.len() == 0 {
        Err(TransformErrorView::NoFrames)
    } else {
        match encoder_made(setup) {
            Err(m) => Err(TransformErrorView::Codec(m)),
            Ok(_) => match feed_frames(setup, frames, Seq::empty()) {
                Err(e) => Err(e),
                Ok(taken) => match end_time(frames) {
                    None => Err(TransformErrorView::TimeOverflow),
                    Some(end) => from_codec(animation_bytes(setup, taken, end)),
                },
            },
        }
    }
}

/// What the WebP resizer answers: see [`resize_webp`].
pub open spec fn webp_resized(data: Seq<u8>, width: u32, animated: bool) -> Rendition {
    if width == 0 {
        Ok(data)
    } else if !animated {
        match sniffed_size(data) {
            Err(m) => Err(TransformErrorView::Codec(m)),
            Ok((w, h)) => match resize_plan(w, h, width, MAX_WEBP_SIDE) {
                ResizePlan::Keep => Ok(data),
                ResizePlan::TooLarge => Err(TransformErrorView::TooLarge),
                ResizePlan::Resize(a, b) => from_codec(
                    lossless_webp_of(data, a, b, Filter::Lanczos3),
                ),
            },
        }
    } else {
        match animation_of(data) {
            Err(m) => Err(TransformErrorView::Codec(m)),
            Ok(frames) => if frames.len() == 0 {
                Err(TransformErrorView::NoFrames)
            } else {
                match resize_plan(frames[0].width, frames[0].height, width, MAX_WEBP_SIDE) {
                    ResizePlan::Keep => Ok(data),
                    ResizePlan::TooLarge => Err(TransformErrorView::TooLarge),
                    ResizePlan::Resize(a, b) => animation_resized(frames, animation_setup(a, b)),
                }
            },
        }
    }
}

/// Encodes `frames` anew on a canvas of `width` by `height`: see [`animation_resized`].
pub fn resize_animation(frames: &Vec<AnimFrame>, width: u32, height: u32) -> (r: Result<
    Vec<u8>,
    TransformError,
>)
    ensures
        rendition_view(r) == animation_resized(
            frames@.map_values(|f: AnimFrame| f@),
            animation_setup(width, height),
        ),
{
    if width < 1 || width > MAX_WEBP_SIDE || height < 1 || height > MAX_WEBP_SIDE {
        return Err(TransformError::TooLarge);
    }
    assert(0 <= width * height <= 16383 * 16383) by (nonlinear_arith)
        requires
            1 <= width <= 16383,
            1 <= height <= 16383,
    ;
    if (width as u64) * (height as u64) > MAX_PIXELS {
        return Err(TransformError::TooLarge);
    }
    let setup = encoder_settings(width, height);
    let ghost all = frames@.map_values(|f: AnimFrame| f@);
    if frames.len() == 0 {
        return Err(TransformError::NoFrames);
    }
    let mut encoder = match animation_encoder(setup) {
        Ok(encoder) => encoder,
        Err(m) => {
            return Err(TransformError::Codec(m));
        },
    };
    assert(encoder_frames(encoder) =~= Seq::empty());
    assert(all.skip(0) =~= all);
    let mut i: usize = 0;
    while i < frames.len()
        invariant
            i <= frames.len(),
            all == frames@.map_values(|f: AnimFrame| f@),
            setup == animation_setup(width, height),
            encoder_setup(encoder) == setup,
            encoder_made(setup) is Ok,
            1 <= width <= MAX_WEBP_SIDE,
            1 <= height <= MAX_WEBP_SIDE,
            width * height <= MAX_PIXELS,
            frames@.len() > 0,
            feed_frames(setup, all, Seq::empty()) == feed_frames(
                setup,
                all.skip(i as int),
                encoder_frames(encoder),
            ),
        decreases frames.len() - i,
    {
        let frame = &frames[i];
        let ghost rest = all.skip(i as int);
        assert(rest[0] == frame@);
        assert(rest.skip(1) =~= all.skip(i + 1));
        let ghost area = frame.width * frame.height;
        assert(0 <= area <= 0xffff_ffff * 0xffff_ffff) by (nonlinear_arith)
            requires
                area == frame.width * frame.height,
                0 <= frame.width <= 0xffff_ffff,
                0 <= frame.height <= 0xffff_ffff,
        ;
        assert(4 * frame.width * frame.height == 4 * area) by (nonlinear_arith)
            requires
                area == frame.width * frame.height,
        ;
        let expected: u128 = 4 * ((frame.width as u128) * (frame.height as u128));
        if frame.pixels.len() as u128 != expected {
            return Err(TransformError::Malformed);
        }
        let webp = match frame_to_webp(frame.pixels.as_slice(), frame.width, frame.height) {
            Ok(webp) => webp,
            Err(m) => {
                return Err(TransformError::Codec(m));
            },
        };
        let px = match resize_frame(webp.as_slice(), width, height, Filter::Lanczos3) {
            Ok(px) => px,
            Err(m) => {
                return Err(TransformError::Codec(m));
            },
        };
        match add_frame(&mut encoder, px.as_slice(), frame.timestamp) {
            Ok(_) => {},
            Err(m) => {
                return Err(TransformError::Codec(m));
            },
        }
        i += 1;
    }
    assert(all.skip(frames@.len() as int).len() == 0);
    let last = frames[frames.len() - 1].timestamp;
    assert(all.last() == frames@[frames@.len() - 1]@);
    let ghost product = last * frames@.len();
    assert(-0x8000_0000 * 0x1_0000_0000_0000_0000 <= product <= 0x8000_0000
        * 0x1_0000_0000_0000_0000) by (nonlinear_arith)
        requires
            product == last * frames@.len(),
            -0x8000_0000 <= last <= 0x8000_0000,
            0 <= frames@.len() <= 0x1_0000_0000_0000_0000,
    ;
    let end: i128 = (last as i128) * (frames.len() as i128);
    if end < i32::MIN as i128 || end > i32::MAX as i128 {
        return Err(TransformError::TimeOverflow);
    }
    match finish_animation(encoder, end as i32) {
        Ok(bytes) => Ok(bytes),
        Err(m) => Err(TransformError::Codec(m)),
    }
}

/// The WebP resizer. A still image is resampled with a Lanczos filter to the size that the
/// fit rule gives for `width` and written as lossless WebP. Of an animation, every frame is
/// resampled to the size that the fit rule gives for the first frame, and the frames are
/// encoded anew at their own times.
///
/// Width 0 and an image that already has the requested width give the bytes back untouched.
pub fn resize_webp(data: &[u8], width: u32, animated: bool) -> (r: Result<Vec<u8>, TransformError>)
    ensures
        rendition_view(r) == webp_resized(data@, width, animated),
{
    if width == 0 {
        return Ok(copy_bytes(data));
    }
    if !animated {
        let (w, h) = match sniff_size(data) {
            Ok(size) => size,
            Err(m) => {
                return Err(TransformError::Codec(m));
            },
        };
        match plan_resize(w, h, width, MAX_WEBP_SIDE) {
            ResizePlan::Keep => Ok(copy_bytes(data)),
            ResizePlan::TooLarge => Err(TransformError::TooLarge),
            ResizePlan::Resize(a, b) => match resize_to_webp(data, a, b, Filter::Lanczos3) {
                Ok(bytes) => Ok(bytes),
                Err(m) => Err(TransformError::Codec(m)),
            },
        }
    } else {
        let frames = match animation_frames(data) {
            Ok(frames) => frames,
            Err(m) => {
                return Err(TransformError::Codec(m));
            },
        };
        if frames.len() == 0 {
            return Err(TransformError::NoFrames);
        }
        let ghost all = frames@.map_values(|f: AnimFrame| f@);
        assert(all[0] == frames@[0]@);
        match plan_resize(frames[0].width, frames[0].height, width, MAX_WEBP_SIDE) {
            ResizePlan::Keep => Ok(copy_bytes(data)),
            ResizePlan::TooLarge => Err(TransformError::TooLarge),
            ResizePlan::Resize(a, b) => resize_animation(&frames, a, b),
        }
    }
}

/// A WebP that already has the requested width is handed back byte for byte: a still image
/// by its own width, an animation by the width of its first frame.
pub proof fn lemma_webp_keeps_width(data: Seq<u8>, width: u32, animated: bool)
    requires
        !animated ==> (sniffed_size(data) matches Ok(size) && size.0 == width),
        animated ==> (animation_of(data) matches Ok(frames) && frames.len() > 0
            && frames[0].width == width),
    ensures
        webp_resized(data, width, animated) == Ok::<Seq<u8>, TransformErrorView>(data),
{
}

/// What is asked of a tool outside the process.
#[derive(Debug, Clone, Copy, PartialEq, Eq, Structural)]
pub enum ExternalPlan {
    /// Nothing: the bytes stay as they are.
    Keep,
    /// A rendition of this width and height.
    Run(u32, u32),
}

/// The memory that the GIF reader may use for one frame: 8000 by 8000 bytes.
pub const GIF_MEMORY_LIMIT: u64 = 64000000;

/// What is asked of the GIF tool for a source of `w` by `h`: nothing where no rendition is
/// asked for or the source already has the requested width, else a rendition of the size that
/// the fit rule gives.
pub open spec fn external_plan(w: u32, h: u32, width: u32) -> ExternalPlan {
    if width == 0 || w == width {
        ExternalPlan::Keep
    } else {
        let (a, b) = fit(w as int, h as int, width as int);
        ExternalPlan::Run(a as u32, b as u32)
    }
}

/// What is asked of the GIF tool, given what a look at the GIF found. An unreadable GIF is
/// kept. A GIF whose first frame is missing or broken is taken for a square whose side is
/// the low 16 bits of the requested width.
pub open spec fn gif_plan_of(probe: GifProbe, width: u32) -> ExternalPlan {
    match probe {
        GifProbe::Unreadable => ExternalPlan::Keep,
        GifProbe::Frame(w, h) => external_plan(w as u32, h as u32, width),
        _ => external_plan((width % 0x10000) as u32, (width % 0x10000) as u32, width),
    }
}

/// Decides what is asked of the GIF tool: see [`external_plan`].
pub fn plan_external(w: u32, h: u32, width: u32) -> (r: ExternalPlan)
    ensures
        r == external_plan(w, h, width),
        r matches ExternalPlan::Run(a, b) ==> a >= 1 && b >= 1 && width >= 1,
{
    if width == 0 || w == width {
        ExternalPlan::Keep
    } else {
        let (a, b) = calculate_dimensions(w, h, width);
        proof {
            lemma_fit_never_upscales(w as int, h as int, width as int);
        }
        ExternalPlan::Run(a, b)
    }
}

/// Decides what is asked of the GIF tool: see [`gif_plan_of`].
pub fn gif_plan(probe: GifProbe, width: u32) -> (r: ExternalPlan)
    ensures
        r == gif_plan_of(probe, width),
{
    match probe {
        GifProbe::Unreadable => ExternalPlan::Keep,
        GifProbe::Frame(w, h) => plan_external(w as u32, h as u32, width),
        _ => {
            let side: u32 = width % 0x10000;
            plan_external(side, side, width)
        },
    }
}

/// The GIF resizer's decision. The GIF is opened with a memory cap of 8000 by 8000 and
/// tolerance of unknown blocks, and its first frame gives the source size. The resampling
/// itself is the work of a tool outside the process, which this function does not run: it
/// says what to ask of it.
pub fn resize_gif(data: &[u8], width: u32) -> (r: ExternalPlan)
    ensures
        r == gif_plan_of(gif_probed(data@, GIF_MEMORY_LIMIT, true), width),
{
    gif_plan(gif_probe(data, GIF_MEMORY_LIMIT, true), width)
}

/// Of a GIF whose first frame already has the requested width, nothing is asked of the GIF
/// tool.
pub proof fn lemma_gif_keeps_width(width: u32, height: u16)
    requires
        width <= u16::MAX,
    ensures
        gif_plan_of(GifProbe::Frame(width as u16, height), width) == ExternalPlan::Keep,
{
}

/// One track of an MP4 container.
#[derive(Debug, Clone, Copy, PartialEq, Eq, Structural)]
pub struct TrackInfo {
    pub video: bool,
    pub width: u16,
    pub height: u16,
}

/// The first video track among `tracks`.
pub open spec fn first_video(tracks: Seq<TrackInfo>) -> Option<TrackInfo>
    decreases tracks.len(),
{
    if tracks.len() == 0 {
        None
    } else if tracks[0].video {
        Some(tracks[0])
    } else {
        first_video(tracks.skip(1))
    }
}

/// What is asked of the video converter, given the tracks of the container in the order
/// they were read (`None` where the container could not be read): a GIF of the size that the
/// fit rule gives for the first video track. Without such a track, and where no rendition is
/// asked for, the bytes are kept.
pub open spec fn mp4_plan_of(tracks: Option<Seq<TrackInfo>>, width: u32) -> ExternalPlan {
    match tracks {
        None => ExternalPlan::Keep,
        Some(t) => match first_video(t) {
            None => ExternalPlan::Keep,
            Some(v) => if width == 0 {
                ExternalPlan::Keep
            } else {
                let (a, b) = fit(v.width as int, v.height as int, width as int);
                ExternalPlan::Run(a as u32, b as u32)
            },
        },
    }
}

/// The tracks as contracts read them.
pub open spec fn tracks_view(tracks: Option<Vec<TrackInfo>>) -> Option<Seq<TrackInfo>> {
    match tracks {
        None => None,
        Some(t) => Some(t@),
    }
}

/// The video converter's decision: see [`mp4_plan_of`]. Neither the reading of the container
/// nor the conversion is done here: the tracks are handed in as they were read, and the
/// answer says what to ask of the converter.
pub fn mp4_to_gif(tracks: &Option<Vec<TrackInfo>>, width: u32) -> (r: ExternalPlan)
    ensures
        r == mp4_plan_of(tracks_view(*tracks), width),
{
    let list = match tracks {
        None => {
            return ExternalPlan::Keep;
        },
        Some(list) => list,
    };
    let mut i: usize = 0;
    assert(list@.skip(0) =~= list@);
    while i < list.len()
        invariant
            i <= list.len(),
            tracks_view(*tracks) == Some(list@),
            first_video(list@) == first_video(list@.skip(i as int)),
        decreases list.len() - i,
    {
        assert(list@.skip(i as int).skip(1) =~= list@.skip(i + 1));
        assert(list@.skip(i as int)[0] == list@[i as int]);
        if list[i].video {
            if width == 0 {
                return ExternalPlan::Keep;
            }
            let (a, b) = calculate_dimensions(list[i].width as u32, list[i].height as u32, width);
            proof {
                lemma_fit_never_upscales(
                    list[i as int].width as int,
                    list[i as int].height as int,
                    width as int,
                );
            }
            return ExternalPlan::Run(a, b);
        }
        i += 1;
    }
    ExternalPlan::Keep
}

/// Renders an SVG at its own size as a PNG. The fonts are those of the machine, so the bytes
/// are not determined by `data` alone; the renderer's answer goes through [`codec_answer`].
pub fn svg_to_png(data: &[u8]) -> (r: Result<Vec<u8>, TransformError>)
    ensures
        r matches Err(e) ==> e is Codec,
{
    codec_answer(rasterize_svg(data))
}

/// What a resizer makes of a codec's answer: the bytes as they are, or the codec's message
/// as the error. See [`from_codec`].
pub fn codec_answer(answer: Result<Vec<u8>, String>) -> (r: Result<Vec<u8>, TransformError>)
    ensures
        rendition_view(r) == from_codec(bytes_view(answer)),
{
    match answer {
        Ok(bytes) => Ok(bytes),
        Err(m) => Err(TransformError::Codec(m)),
    }
}

} // verus!
