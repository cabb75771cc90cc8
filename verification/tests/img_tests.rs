use imgopt::codec::{AnimFrame, GifProbe, ImageFormat};
use imgopt::img::{
    calculate_dimensions, codec_answer, copy_bytes, encoder_settings, gif_plan, is_webp_animated,
    mp4_to_gif, plan_external, plan_resize, resize_animation, resize_gif, resize_png,
    resize_static, resize_webp, svg_to_png, ExternalPlan, ResizePlan, TrackInfo, TransformError,
};
use std::io::Cursor;

fn rgb_image(width: u32, height: u32) -> image::DynamicImage {
    image::DynamicImage::ImageRgb8(image::RgbImage::from_fn(width, height, |x, y| {
        image::Rgb([(x % 251) as u8, (y % 241) as u8, ((x + y) % 239) as u8])
    }))
}

fn encoded(img: &image::DynamicImage, format: image::ImageFormat) -> Vec<u8> {
    let mut out = Cursor::new(Vec::new());
    img.write_to(&mut out, format).unwrap();
    out.into_inner()
}

fn size_of(data: &[u8]) -> (u32, u32) {
    let img = image::load_from_memory(data).unwrap();
    (img.width(), img.height())
}

fn rgba_pixels(width: u32, height: u32, seed: u8) -> Vec<u8> {
    let mut out = Vec::new();
    for y in 0..height {
        for x in 0..width {
            out.push(((x + seed as u32) % 256) as u8);
            out.push((y % 256) as u8);
            out.push(seed);
            out.push(255);
        }
    }
    out
}

fn animated_webp(width: u32, height: u32, times: &[i32], end: i32) -> Vec<u8> {
    let mut encoder = webp_animation::Encoder::new((width, height)).unwrap();
    for (i, t) in times.iter().enumerate() {
        encoder.add_frame(&rgba_pixels(width, height, (i * 40) as u8), *t).unwrap();
    }
    encoder.finalize(end).unwrap().to_vec()
}

fn is_codec(r: &Result<Vec<u8>, TransformError>) -> bool {
    matches!(r, Err(TransformError::Codec(_)))
}

#[test]
fn fit_divides_by_the_whole_quotient_of_the_longer_side() {
    assert_eq!(calculate_dimensions(800, 600, 400), (400, 300));
    assert_eq!(calculate_dimensions(801, 600, 400), (400, 300));
    assert_eq!(calculate_dimensions(1000, 500, 400), (500, 250));
    assert_eq!(calculate_dimensions(799, 600, 400), (799, 600));
    assert_eq!(calculate_dimensions(1200, 400, 400), (400, 133));
    assert_eq!(calculate_dimensions(320, 240, 160), (160, 120));
}

#[test]
fn fit_lets_the_height_govern_where_it_is_the_longer_side() {
    assert_eq!(calculate_dimensions(600, 800, 400), (300, 400));
    assert_eq!(calculate_dimensions(300, 900, 400), (150, 450));
    assert_eq!(calculate_dimensions(400, 900, 400), (200, 450));
    assert_eq!(calculate_dimensions(200, 1000, 100), (20, 100));
    assert_eq!(calculate_dimensions(100, 799, 400), (100, 799));
    assert_eq!(calculate_dimensions(500, 1000, 400), (250, 500));
}

#[test]
fn fit_is_the_same_for_an_image_turned_on_its_side() {
    for (w, h, t) in [(600u32, 800u32, 400u32), (1000, 500, 400), (7, 3, 2), (4000, 3, 10), (30, 20, 100)] {
        let (a, b) = calculate_dimensions(w, h, t);
        assert_eq!(calculate_dimensions(h, w, t), (b, a));
    }
}

#[test]
fn fit_brings_the_longer_side_to_the_target_or_just_above() {
    for (w, h, t) in [(600u32, 800u32, 400u32), (800, 600, 400), (1000, 999, 7), (u32::MAX, 1, 2), (3, 7, 2)] {
        let (a, b) = calculate_dimensions(w, h, t);
        let long = a.max(b);
        assert!(t <= long && long < 2 * t, "{w} {h} {t}");
    }
}

#[test]
fn fit_makes_square_images_the_target_on_both_sides() {
    assert_eq!(calculate_dimensions(50, 50, 100), (100, 100));
    assert_eq!(calculate_dimensions(500, 500, 100), (100, 100));
    assert_eq!(calculate_dimensions(100, 100, 100), (100, 100));
    assert_eq!(calculate_dimensions(0, 0, 7), (7, 7));
}

#[test]
fn fit_keeps_images_within_the_target() {
    assert_eq!(calculate_dimensions(30, 20, 100), (30, 20));
    assert_eq!(calculate_dimensions(100, 20, 100), (100, 20));
    assert_eq!(calculate_dimensions(20, 100, 100), (20, 100));
}

#[test]
fn fit_never_gives_an_empty_side() {
    assert_eq!(calculate_dimensions(10000, 1, 1), (1, 1));
    assert_eq!(calculate_dimensions(1, 10000, 1), (1, 1));
    assert_eq!(calculate_dimensions(4000, 3, 10), (10, 1));
    assert_eq!(calculate_dimensions(0, 5, 10), (1, 5));
}

#[test]
fn fit_never_enlarges_beyond_the_larger_of_side_and_target() {
    for (w, h, t) in [(800u32, 600u32, 400u32), (1, 1, 1), (7, 3, 2), (3, 7, 2), (u32::MAX, 1, 2), (5, 5, 9), (9, 8, 9), (1000, 999, 7)] {
        let (a, b) = calculate_dimensions(w, h, t);
        assert!(a <= w.max(t), "{w} {h} {t}");
        assert!(b <= h.max(t), "{w} {h} {t}");
        assert!(a >= 1 && b >= 1);
    }
}

#[test]
fn plan_resize_keeps_an_image_of_the_requested_width() {
    assert_eq!(plan_resize(320, 240, 320, u32::MAX), ResizePlan::Keep);
    assert_eq!(plan_resize(320, 240, 0, u32::MAX), ResizePlan::Keep);
    assert_eq!(plan_resize(320, 240, 160, u32::MAX), ResizePlan::Resize(160, 120));
    assert_eq!(plan_resize(50, 50, 100, u32::MAX), ResizePlan::Resize(100, 100));
}

#[test]
fn plan_resize_refuses_renditions_that_are_too_large() {
    assert_eq!(plan_resize(10, 10, 8000, u32::MAX), ResizePlan::Resize(8000, 8000));
    assert_eq!(plan_resize(10, 10, 8001, u32::MAX), ResizePlan::TooLarge);
    assert_eq!(plan_resize(10, 10, 16383, 16383), ResizePlan::TooLarge);
    assert_eq!(plan_resize(40000, 10, 20000, 16383), ResizePlan::TooLarge);
    assert_eq!(plan_resize(40000, 10, 20000, u32::MAX), ResizePlan::Resize(20000, 5));
}

#[test]
fn is_webp_animated_reads_the_four_tags() {
    let mut data = vec![0u8; 34];
    data[0..4].copy_from_slice(b"RIFF");
    data[8..12].copy_from_slice(b"WEBP");
    data[12..16].copy_from_slice(b"VP8X");
    data[30..34].copy_from_slice(b"ANIM");
    assert!(is_webp_animated(&data));
    let mut longer = data.clone();
    longer.extend_from_slice(&[1, 2, 3]);
    assert!(is_webp_animated(&longer));
    for at in [0usize, 3, 8, 11, 12, 15, 30, 33] {
        let mut broken = data.clone();
        broken[at] ^= 1;
        assert!(!is_webp_animated(&broken), "{at}");
    }
    let mut still = data.clone();
    still[12..16].copy_from_slice(b"VP8L");
    assert!(!is_webp_animated(&still));
}

#[test]
fn is_webp_animated_is_false_for_short_input() {
    assert!(!is_webp_animated(&[]));
    assert!(!is_webp_animated(b"RIFF"));
    let mut data = vec![0u8; 33];
    data[0..4].copy_from_slice(b"RIFF");
    data[8..12].copy_from_slice(b"WEBP");
    data[12..16].copy_from_slice(b"VP8X");
    assert!(!is_webp_animated(&data));
}

#[test]
fn is_webp_animated_tells_real_files_apart() {
    let animation = animated_webp(32, 24, &[0, 100], 200);
    assert!(is_webp_animated(&animation));
    let still = encoded(&rgb_image(32, 24), image::ImageFormat::WebP);
    assert!(!is_webp_animated(&still));
}

#[test]
fn copy_bytes_copies() {
    assert_eq!(copy_bytes(&[1, 2, 3]), vec![1, 2, 3]);
    assert_eq!(copy_bytes(&[]), Vec::<u8>::new());
}

#[test]
fn resize_static_scales_a_jpeg_down() {
    let data = encoded(&rgb_image(800, 600), image::ImageFormat::Jpeg);
    let out = resize_static(&data, 400, ImageFormat::Jpeg).unwrap();
    assert_ne!(out, data);
    assert_eq!(image::guess_format(&out).unwrap(), image::ImageFormat::Jpeg);
    assert_eq!(size_of(&out), (400, 300));
}

#[test]
fn resize_static_scales_a_png_down() {
    let data = encoded(&rgb_image(90, 60), image::ImageFormat::Png);
    let out = resize_static(&data, 30, ImageFormat::Png).unwrap();
    assert_eq!(image::guess_format(&out).unwrap(), image::ImageFormat::Png);
    assert_eq!(size_of(&out), (30, 20));
}

#[test]
fn resize_static_reads_and_writes_gif_and_webp() {
    let gif = encoded(&rgb_image(40, 20), image::ImageFormat::Gif);
    let out = resize_static(&gif, 20, ImageFormat::Gif).unwrap();
    assert_eq!(image::guess_format(&out).unwrap(), image::ImageFormat::Gif);
    assert_eq!(size_of(&out), (20, 10));
    let webp = encoded(&rgb_image(40, 20), image::ImageFormat::WebP);
    let out = resize_static(&webp, 20, ImageFormat::WebP).unwrap();
    assert_eq!(image::guess_format(&out).unwrap(), image::ImageFormat::WebP);
    assert_eq!(size_of(&out), (20, 10));
}

#[test]
fn resize_static_hands_back_an_image_of_the_requested_width() {
    let data = encoded(&rgb_image(64, 48), image::ImageFormat::Jpeg);
    assert_eq!(resize_static(&data, 64, ImageFormat::Jpeg).unwrap(), data);
    assert_eq!(resize_static(&data, 0, ImageFormat::Jpeg).unwrap(), data);
}

#[test]
fn resize_static_reports_what_the_codec_refuses() {
    assert!(is_codec(&resize_static(b"not an image", 10, ImageFormat::Jpeg)));
    let png = encoded(&rgb_image(8, 8), image::ImageFormat::Png);
    assert!(is_codec(&resize_static(&png, 4, ImageFormat::Jpeg)));
    assert_eq!(resize_static(b"not an image", 0, ImageFormat::Jpeg).unwrap(), b"not an image".to_vec());
}

#[test]
fn resize_static_refuses_a_rendition_that_is_too_large() {
    let data = encoded(&rgb_image(10, 10), image::ImageFormat::Png);
    assert!(matches!(resize_static(&data, 100000, ImageFormat::Png), Err(TransformError::TooLarge)));
}

#[test]
fn resize_png_resamples_rgb() {
    let data = encoded(&rgb_image(800, 600), image::ImageFormat::Png);
    let out = resize_png(&data, 400).unwrap();
    let img = image::load_from_memory(&out).unwrap();
    assert_eq!((img.width(), img.height()), (400, 300));
    assert_eq!(img.color(), image::ColorType::Rgb8);
}

#[test]
fn resize_png_resamples_rgba_and_grey() {
    let rgba = image::DynamicImage::ImageRgba8(image::RgbaImage::from_fn(60, 30, |x, y| {
        image::Rgba([x as u8, y as u8, 7, 200])
    }));
    let out = resize_png(&encoded(&rgba, image::ImageFormat::Png), 20).unwrap();
    let img = image::load_from_memory(&out).unwrap();
    assert_eq!((img.width(), img.height()), (20, 10));
    assert_eq!(img.color(), image::ColorType::Rgba8);
    let grey = image::DynamicImage::ImageLuma8(image::GrayImage::from_fn(60, 30, |x, y| {
        image::Luma([(x + y) as u8])
    }));
    let out = resize_png(&encoded(&grey, image::ImageFormat::Png), 20).unwrap();
    let img = image::load_from_memory(&out).unwrap();
    assert_eq!((img.width(), img.height()), (20, 10));
    assert_eq!(img.color(), image::ColorType::L8);
}

#[test]
fn resize_png_of_a_flat_image_keeps_its_colour() {
    let flat = image::DynamicImage::ImageRgb8(image::RgbImage::from_pixel(40, 20, image::Rgb([10, 200, 30])));
    let out = resize_png(&encoded(&flat, image::ImageFormat::Png), 10).unwrap();
    let img = image::load_from_memory(&out).unwrap().to_rgb8();
    assert_eq!((img.width(), img.height()), (10, 5));
    for p in img.pixels() {
        assert_eq!(p.0, [10, 200, 30]);
    }
}

#[test]
fn resize_png_enlarges_a_square_image_to_the_target() {
    let data = encoded(&rgb_image(10, 10), image::ImageFormat::Png);
    let out = resize_png(&data, 25).unwrap();
    assert_eq!(size_of(&out), (25, 25));
}

#[test]
fn resize_png_hands_back_an_image_of_the_requested_width() {
    let data = encoded(&rgb_image(64, 48), image::ImageFormat::Png);
    assert_eq!(resize_png(&data, 64).unwrap(), data);
    assert_eq!(resize_png(&data, 0).unwrap(), data);
    let small = encoded(&rgb_image(30, 20), image::ImageFormat::Png);
    let out = resize_png(&small, 100).unwrap();
    assert_eq!(size_of(&out), (30, 20));
}

#[test]
fn resize_png_sends_grey_with_alpha_through_the_generic_resizer() {
    let img = image::DynamicImage::ImageLumaA8(image::GrayAlphaImage::from_fn(60, 30, |x, _| {
        image::LumaA([x as u8, 128])
    }));
    let data = encoded(&img, image::ImageFormat::Png);
    let out = resize_png(&data, 20).unwrap();
    assert_eq!(size_of(&out), (20, 10));
    assert_eq!(out, resize_static(&data, 20, ImageFormat::Png).unwrap());
}

#[test]
fn resize_png_sends_palette_images_through_the_generic_resizer() {
    let mut data = Vec::new();
    {
        let mut encoder = png::Encoder::new(&mut data, 8, 4);
        encoder.set_color(png::ColorType::Indexed);
        encoder.set_depth(png::BitDepth::Eight);
        encoder.set_palette(vec![0u8, 0, 0, 255, 0, 0, 0, 255, 0]);
        let mut writer = encoder.write_header().unwrap();
        let pixels: Vec<u8> = (0..32).map(|i| (i % 3) as u8).collect();
        writer.write_image_data(&pixels).unwrap();
        writer.finish().unwrap();
    }
    let out = resize_png(&data, 4).unwrap();
    assert_eq!(size_of(&out), (4, 2));
    assert_eq!(out, resize_static(&data, 4, ImageFormat::Png).unwrap());
}

#[test]
fn resize_png_refuses_sixteen_bit_samples() {
    let deep = image::DynamicImage::ImageRgb16(image::ImageBuffer::from_fn(20, 10, |x, y| {
        image::Rgb([x as u16 * 1000, y as u16 * 1000, 5])
    }));
    let data = encoded(&deep, image::ImageFormat::Png);
    assert!(matches!(resize_png(&data, 10), Err(TransformError::UnsupportedDepth)));
}

#[test]
fn resize_png_reports_what_the_decoder_refuses() {
    assert!(is_codec(&resize_png(b"not a png", 10)));
    let jpeg = encoded(&rgb_image(8, 8), image::ImageFormat::Jpeg);
    assert!(is_codec(&resize_png(&jpeg, 4)));
    let png = encoded(&rgb_image(8, 6), image::ImageFormat::Png);
    assert!(is_codec(&resize_png(&png[..png.len() / 2], 4)));
}

#[test]
fn resize_png_refuses_a_rendition_that_is_too_large() {
    let data = encoded(&rgb_image(10, 10), image::ImageFormat::Png);
    assert!(matches!(resize_png(&data, 100000), Err(TransformError::TooLarge)));
}

#[test]
fn resize_webp_resamples_a_still_image() {
    let data = encoded(&rgb_image(80, 60), image::ImageFormat::WebP);
    let out = resize_webp(&data, 40, false).unwrap();
    assert_eq!(image::guess_format(&out).unwrap(), image::ImageFormat::WebP);
    assert_eq!(size_of(&out), (40, 30));
}

#[test]
fn resize_webp_hands_back_a_still_image_of_the_requested_width() {
    let data = encoded(&rgb_image(80, 60), image::ImageFormat::WebP);
    assert_eq!(resize_webp(&data, 80, false).unwrap(), data);
    assert_eq!(resize_webp(&data, 0, false).unwrap(), data);
}

#[test]
fn resize_webp_refuses_sides_beyond_the_format() {
    let data = encoded(&rgb_image(40000, 2), image::ImageFormat::Png);
    assert!(matches!(resize_webp(&data, 20000, false), Err(TransformError::TooLarge)));
}

#[test]
fn resize_webp_reports_what_the_decoder_refuses() {
    assert!(is_codec(&resize_webp(b"not an image", 10, false)));
    assert!(is_codec(&resize_webp(b"not an image", 10, true)));
    assert!(is_codec(&resize_webp(b"", 10, true)));
}

#[test]
fn resize_webp_resamples_every_frame_of_an_animation() {
    let data = animated_webp(320, 240, &[0, 100, 250], 400);
    let out = resize_webp(&data, 160, true).unwrap();
    assert!(is_webp_animated(&out));
    let frames: Vec<_> = webp_animation::Decoder::new(&out).unwrap().into_iter().collect();
    assert_eq!(frames.len(), 3);
    for f in &frames {
        assert_eq!(f.dimensions(), (160, 120));
    }
    let before: Vec<i32> =
        webp_animation::Decoder::new(&data).unwrap().into_iter().map(|f| f.timestamp()).collect();
    let after: Vec<i32> = frames.iter().map(|f| f.timestamp()).collect();
    assert_eq!(after.len(), before.len());
    assert!(after.windows(2).all(|w| w[0] < w[1]));
}

#[test]
fn resize_webp_hands_back_an_animation_of_the_requested_width() {
    let data = animated_webp(320, 240, &[0, 100], 200);
    assert!(is_webp_animated(&data));
    assert_eq!(resize_webp(&data, 320, true).unwrap(), data);
    assert_eq!(resize_webp(&data, 0, true).unwrap(), data);
}

#[test]
fn resize_animation_without_frames_is_refused() {
    let frames: Vec<AnimFrame> = vec![];
    assert!(matches!(resize_animation(&frames, 4, 4), Err(TransformError::NoFrames)));
}

#[test]
fn resize_animation_refuses_a_canvas_that_does_not_fit() {
    let frames = vec![AnimFrame { width: 2, height: 2, timestamp: 0, pixels: rgba_pixels(2, 2, 1) }];
    assert!(matches!(resize_animation(&frames, 0, 4), Err(TransformError::TooLarge)));
    assert!(matches!(resize_animation(&frames, 4, 0), Err(TransformError::TooLarge)));
    assert!(matches!(resize_animation(&frames, 16384, 1), Err(TransformError::TooLarge)));
    assert!(matches!(resize_animation(&frames, 16383, 16383), Err(TransformError::TooLarge)));
}

#[test]
fn resize_animation_refuses_pixels_that_do_not_fill_the_frame() {
    let frames = vec![AnimFrame { width: 2, height: 2, timestamp: 0, pixels: vec![0; 15] }];
    assert!(matches!(resize_animation(&frames, 4, 4), Err(TransformError::Malformed)));
}

#[test]
fn resize_animation_reports_times_that_the_encoder_refuses() {
    let frames = vec![
        AnimFrame { width: 2, height: 2, timestamp: 10, pixels: rgba_pixels(2, 2, 1) },
        AnimFrame { width: 2, height: 2, timestamp: 10, pixels: rgba_pixels(2, 2, 2) },
    ];
    assert!(is_codec(&resize_animation(&frames, 4, 4)));
}

#[test]
fn resize_animation_refuses_an_end_time_out_of_range() {
    let frames: Vec<AnimFrame> = (0..134)
        .map(|i| AnimFrame {
            width: 2,
            height: 2,
            timestamp: i * 16_000_000,
            pixels: rgba_pixels(2, 2, i as u8),
        })
        .collect();
    let r = resize_animation(&frames, 4, 4);
    assert!(matches!(r, Err(TransformError::TimeOverflow)), "{r:?}");
}

#[test]
fn resize_animation_ends_at_the_last_time_multiplied_by_the_frame_count() {
    let frames = vec![
        AnimFrame { width: 4, height: 2, timestamp: 0, pixels: rgba_pixels(4, 2, 1) },
        AnimFrame { width: 4, height: 2, timestamp: 70, pixels: rgba_pixels(4, 2, 90) },
    ];
    let out = resize_animation(&frames, 8, 4).unwrap();
    let decoded: Vec<_> = webp_animation::Decoder::new(&out).unwrap().into_iter().collect();
    assert_eq!(decoded.len(), 2);
    assert_eq!(decoded[0].dimensions(), (8, 4));
    assert_eq!(decoded[1].timestamp(), 140);
}

#[test]
fn encoder_settings_are_the_documented_ones() {
    let s = encoder_settings(160, 120);
    assert_eq!((s.width, s.height), (160, 120));
    assert_eq!((s.kmin, s.kmax), (3, 5));
    assert_eq!(s.quality, 75);
    assert_eq!(s.segments, 2);
    assert!(s.alpha_compression);
}

#[test]
fn transform_errors_have_a_message() {
    assert_eq!(TransformError::Codec("unexpected EOF".to_string()).message(), "unexpected EOF");
    assert_eq!(TransformError::TooLarge.message(), "rendition too large");
    assert_eq!(TransformError::UnsupportedDepth.message(), "unsupported sample depth");
    assert_eq!(TransformError::Malformed.message(), "pixels do not match the image size");
    assert_eq!(TransformError::NoFrames.message(), "animation without frames");
    assert_eq!(TransformError::TimeOverflow.message(), "animation end time out of range");
}

#[test]
fn plan_external_asks_for_the_fitted_size() {
    assert_eq!(plan_external(100, 80, 50), ExternalPlan::Run(50, 40));
    assert_eq!(plan_external(100, 80, 100), ExternalPlan::Keep);
    assert_eq!(plan_external(100, 80, 0), ExternalPlan::Keep);
    assert_eq!(plan_external(100, 80, 200), ExternalPlan::Run(100, 80));
    assert_eq!(plan_external(80, 80, 200), ExternalPlan::Run(200, 200));
}

#[test]
fn gif_plan_follows_the_first_frame() {
    assert_eq!(gif_plan(GifProbe::Frame(100, 80), 50), ExternalPlan::Run(50, 40));
    assert_eq!(gif_plan(GifProbe::Frame(100, 80), 100), ExternalPlan::Keep);
    assert_eq!(gif_plan(GifProbe::Unreadable, 50), ExternalPlan::Keep);
}

#[test]
fn gif_plan_takes_a_square_of_the_requested_width_without_a_frame() {
    assert_eq!(gif_plan(GifProbe::NoFrame, 50), ExternalPlan::Keep);
    assert_eq!(gif_plan(GifProbe::BadFrame, 50), ExternalPlan::Keep);
    assert_eq!(gif_plan(GifProbe::NoFrame, 70000), ExternalPlan::Run(70000, 70000));
    assert_eq!(gif_plan(GifProbe::BadFrame, 65536), ExternalPlan::Run(65536, 65536));
}

#[test]
fn resize_gif_reads_the_first_frame_of_a_real_gif() {
    let data = encoded(&rgb_image(100, 80), image::ImageFormat::Gif);
    assert_eq!(resize_gif(&data, 50), ExternalPlan::Run(50, 40));
    assert_eq!(resize_gif(&data, 100), ExternalPlan::Keep);
    assert_eq!(resize_gif(&data, 0), ExternalPlan::Keep);
    assert_eq!(resize_gif(b"not a gif", 50), ExternalPlan::Keep);
    assert_eq!(resize_gif(b"", 50), ExternalPlan::Keep);
}

#[test]
fn mp4_to_gif_takes_the_first_video_track() {
    let tracks = Some(vec![
        TrackInfo { video: false, width: 0, height: 0 },
        TrackInfo { video: true, width: 640, height: 360 },
        TrackInfo { video: true, width: 100, height: 100 },
    ]);
    assert_eq!(mp4_to_gif(&tracks, 320), ExternalPlan::Run(320, 180));
    assert_eq!(mp4_to_gif(&tracks, 640), ExternalPlan::Run(640, 360));
    assert_eq!(mp4_to_gif(&tracks, 0), ExternalPlan::Keep);
    let tall = Some(vec![TrackInfo { video: true, width: 360, height: 640 }]);
    assert_eq!(mp4_to_gif(&tall, 320), ExternalPlan::Run(180, 320));
}

#[test]
fn mp4_to_gif_keeps_what_has_no_video_track() {
    assert_eq!(mp4_to_gif(&Some(vec![TrackInfo { video: false, width: 9, height: 9 }]), 320), ExternalPlan::Keep);
    assert_eq!(mp4_to_gif(&Some(vec![]), 320), ExternalPlan::Keep);
    assert_eq!(mp4_to_gif(&None, 320), ExternalPlan::Keep);
}

#[test]
fn svg_to_png_draws_at_the_size_of_the_svg() {
    let svg = br#"<svg xmlns="http://www.w3.org/2000/svg" width="30" height="20"><rect width="30" height="20" fill="red"/></svg>"#;
    let png = svg_to_png(svg).unwrap();
    let img = image::load_from_memory(&png).unwrap().to_rgba8();
    assert_eq!((img.width(), img.height()), (30, 20));
    assert_eq!(img.get_pixel(15, 10).0, [255, 0, 0, 255]);
}

#[test]
fn codec_answer_keeps_bytes_and_wraps_messages() {
    assert_eq!(codec_answer(Ok(vec![1, 2, 3])).unwrap(), vec![1, 2, 3]);
    assert_eq!(codec_answer(Ok(vec![])).unwrap(), Vec::<u8>::new());
    match codec_answer(Err("unexpected EOF".to_string())) {
        Err(TransformError::Codec(m)) => assert_eq!(m, "unexpected EOF"),
        other => panic!("{other:?}"),
    }
}

#[test]
fn svg_to_png_reports_what_the_parser_refuses() {
    assert!(is_codec(&svg_to_png(b"not an svg")));
    assert!(is_codec(&svg_to_png(b"")));
}
