use zeditor::blocks::block_averages;
use zeditor::effects::{
    chroma_subsample, compression_samples, contrast, invert, pixelate, rgb_split, VideoEffect,
};
use zeditor::image::{Color, Image};

fn rgb(r: u8, g: u8, b: u8) -> Color {
    Color { r, g, b, a: 255 }
}

fn img(width: usize, height: usize, pixels: Vec<Color>) -> Image {
    assert_eq!(pixels.len(), width * height);
    Image { width, height, pixels }
}

#[test]
fn names_of_effects() {
    assert_eq!(VideoEffect::Passthrough.name(), "NONE");
    assert_eq!(VideoEffect::Pixelate { block_size: 16 }.name(), "PIXELATE");
    assert_eq!(VideoEffect::Sepia.name(), "SEPIA");
    assert_eq!(VideoEffect::RgbSplit { offset: 5 }.name(), "RGB SPLIT");
    assert_eq!(VideoEffect::Invert.name(), "INVERT");
    assert_eq!(VideoEffect::Contrast { factor_tenths: 15 }.name(), "CONTRAST");
    assert_eq!(VideoEffect::Compression { quality: 20 }.name(), "H264");
    assert_eq!(VideoEffect::Glitch { intensity: 3, seed: 0 }.name(), "GLITCH");
    assert_eq!(VideoEffect::MotionGlitch { trail_length: 5 }.name(), "MOTION GLITCH");
    assert_eq!(VideoEffect::Datamosh { displacement: 8 }.name(), "DATAMOSH");
}

#[test]
fn default_effect_is_passthrough() {
    assert_eq!(VideoEffect::default(), VideoEffect::Passthrough);
}

#[test]
fn forward_cycle_has_twenty_three_settings() {
    let expected = vec![
        VideoEffect::Pixelate { block_size: 16 },
        VideoEffect::Pixelate { block_size: 32 },
        VideoEffect::Sepia,
        VideoEffect::RgbSplit { offset: 5 },
        VideoEffect::RgbSplit { offset: 10 },
        VideoEffect::RgbSplit { offset: 15 },
        VideoEffect::Invert,
        VideoEffect::Contrast { factor_tenths: 15 },
        VideoEffect::Contrast { factor_tenths: 20 },
        VideoEffect::Contrast { factor_tenths: 25 },
        VideoEffect::Compression { quality: 20 },
        VideoEffect::Compression { quality: 10 },
        VideoEffect::Compression { quality: 5 },
        VideoEffect::Glitch { intensity: 3, seed: 0 },
        VideoEffect::Glitch { intensity: 5, seed: 12345 },
        VideoEffect::Glitch { intensity: 7, seed: 12345 },
        VideoEffect::Glitch { intensity: 9, seed: 12345 },
        VideoEffect::MotionGlitch { trail_length: 5 },
        VideoEffect::MotionGlitch { trail_length: 10 },
        VideoEffect::MotionGlitch { trail_length: 15 },
        VideoEffect::Datamosh { displacement: 8 },
        VideoEffect::Datamosh { displacement: -8 },
        VideoEffect::Passthrough,
    ];
    let mut e = VideoEffect::Passthrough;
    for want in expected {
        e = e.next();
        assert_eq!(e, want);
    }
}

#[test]
fn backward_steps() {
    assert_eq!(VideoEffect::Passthrough.prev(), VideoEffect::Datamosh { displacement: -8 });
    assert_eq!(VideoEffect::Datamosh { displacement: -8 }.prev(), VideoEffect::Datamosh { displacement: 8 });
    assert_eq!(VideoEffect::Datamosh { displacement: 8 }.prev(), VideoEffect::MotionGlitch { trail_length: 15 });
    assert_eq!(VideoEffect::MotionGlitch { trail_length: 5 }.prev(), VideoEffect::Glitch { intensity: 10, seed: 0 });
    assert_eq!(VideoEffect::Glitch { intensity: 7, seed: 12345 }.prev(), VideoEffect::Compression { quality: 5 });
    assert_eq!(VideoEffect::Compression { quality: 20 }.prev(), VideoEffect::Compression { quality: 40 });
    assert_eq!(VideoEffect::Compression { quality: 40 }.prev(), VideoEffect::Contrast { factor_tenths: 25 });
    assert_eq!(VideoEffect::Contrast { factor_tenths: 15 }.prev(), VideoEffect::Invert);
    assert_eq!(VideoEffect::Invert.prev(), VideoEffect::RgbSplit { offset: 15 });
    assert_eq!(VideoEffect::RgbSplit { offset: 5 }.prev(), VideoEffect::Sepia);
    assert_eq!(VideoEffect::Sepia.prev(), VideoEffect::Pixelate { block_size: 32 });
    assert_eq!(VideoEffect::Pixelate { block_size: 16 }.prev(), VideoEffect::Pixelate { block_size: 8 });
    assert_eq!(VideoEffect::Pixelate { block_size: 8 }.prev(), VideoEffect::Passthrough);
}

#[test]
fn prev_undoes_next_on_the_cycle() {
    // Everywhere on the cycle but the listed exceptions.
    let mut e = VideoEffect::Passthrough;
    for _ in 0..23 {
        let n = e.next();
        let misses = e == VideoEffect::Passthrough
            || e == VideoEffect::Contrast { factor_tenths: 25 }
            || matches!(e, VideoEffect::Glitch { .. });
        if !misses {
            assert_eq!(n.prev(), e);
        }
        e = n;
    }
    // One of the exceptions.
    assert_eq!(VideoEffect::Passthrough.next().prev(), VideoEffect::Pixelate { block_size: 8 });
}

#[test]
fn float_effects_are_left_to_the_caller() {
    let frame = img(1, 1, vec![rgb(1, 2, 3)]);
    assert!(VideoEffect::Sepia.apply(&frame).is_none());
    assert!(VideoEffect::Compression { quality: 10 }.apply(&frame).is_none());
}

#[test]
fn passthrough_effects_copy_the_frame() {
    let frame = img(2, 1, vec![rgb(1, 2, 3), Color { r: 4, g: 5, b: 6, a: 7 }]);
    for e in [
        VideoEffect::Passthrough,
        VideoEffect::Glitch { intensity: 3, seed: 0 },
        VideoEffect::MotionGlitch { trail_length: 5 },
        VideoEffect::Datamosh { displacement: 8 },
    ] {
        let out = e.apply(&frame).unwrap();
        assert_eq!(out.pixels, frame.pixels);
        assert_eq!((out.width, out.height), (2, 1));
    }
}

#[test]
fn invert_pixels() {
    let frame = img(2, 1, vec![rgb(0, 100, 255), Color { r: 10, g: 20, b: 30, a: 40 }]);
    let out = invert(&frame);
    assert_eq!(out.pixels, vec![rgb(255, 155, 0), rgb(245, 235, 225)]);
}

#[test]
fn invert_twice_restores_opaque_frame() {
    let frame = img(3, 1, vec![rgb(0, 100, 255), rgb(1, 2, 3), rgb(200, 128, 127)]);
    let twice = invert(&invert(&frame));
    assert_eq!(twice.pixels, frame.pixels);
}

#[test]
fn contrast_values() {
    let frame = img(4, 1, vec![rgb(128, 129, 127, ), rgb(0, 255, 200), rgb(100, 150, 140), rgb(1, 2, 3)]);
    let out = contrast(&frame, 15);
    // 128 + (v - 128) * 1.5, rounded down, clamped.
    assert_eq!(out.pixels[0], rgb(128, 129, 126));
    assert_eq!(out.pixels[1], rgb(0, 255, 236));
    assert_eq!(out.pixels[2], rgb(86, 161, 146));
    assert_eq!(out.pixels[3], rgb(0, 0, 0));
    let out2 = contrast(&frame, 25);
    assert_eq!(out2.pixels[2], rgb(58, 183, 158));
}

#[test]
fn pixelate_averages_tiles() {
    // 3x2 frame, tiles of 2: columns {0,1} and {2}, one row of tiles.
    let frame = img(
        3,
        2,
        vec![rgb(0, 0, 0), rgb(10, 20, 30), rgb(100, 100, 100), rgb(20, 40, 60), rgb(30, 60, 91), rgb(50, 51, 52)],
    );
    let out = pixelate(&frame, 2);
    let left = rgb(15, 30, 45);
    let right = rgb(75, 75, 76);
    assert_eq!(out.pixels, vec![left, left, right, left, left, right]);
    let via_apply = VideoEffect::Pixelate { block_size: 2 }.apply(&frame).unwrap();
    assert_eq!(via_apply.pixels, out.pixels);
}

#[test]
fn pixelate_empty_frame() {
    let frame = img(0, 5, vec![]);
    assert!(pixelate(&frame, 4).pixels.is_empty());
}

#[test]
fn block_averages_with_block_of_one_keep_colours() {
    let frame = img(2, 2, vec![rgb(1, 2, 3), rgb(4, 5, 6), rgb(7, 8, 9), rgb(10, 11, 12)]);
    assert_eq!(block_averages(&frame, 1), frame.pixels);
}

#[test]
fn rgb_split_shifts_channels() {
    // Width 8: the shift is capped at 8 / 4 = 2.
    let pixels: Vec<Color> = (0..8u8).map(|i| rgb(i * 10, i * 10 + 1, i * 10 + 2)).collect();
    let frame = img(8, 1, pixels);
    let out = rgb_split(&frame, 5);
    assert_eq!(out.pixels[0], rgb(20, 1, 2));
    assert_eq!(out.pixels[3], rgb(50, 31, 12));
    assert_eq!(out.pixels[7], rgb(70, 71, 52));
}

#[test]
fn chroma_subsample_keeps_brightness_difference() {
    let frame = img(2, 1, vec![rgb(0, 0, 0), rgb(90, 60, 30)]);
    // Block average (45, 30, 15), luma 30; the second pixel has luma 60.
    let out = chroma_subsample(&frame);
    assert_eq!(out.pixels, vec![rgb(45, 30, 15), rgb(75, 60, 45)]);
}

#[test]
fn compression_samples_quantize_and_mark_edges() {
    let frame = img(3, 1, vec![rgb(100, 100, 100), rgb(100, 100, 100), rgb(100, 100, 100)]);
    let samples = compression_samples(&frame, 20);
    // Step 51 - 20 = 31: 100 -> 93.
    assert_eq!(samples.len(), 3);
    for s in &samples {
        assert_eq!(s.level, rgb(93, 93, 93));
        assert_eq!(s.base, rgb(100, 100, 100));
        assert!(s.edge);
    }
    let big = img(10, 10, vec![rgb(50, 60, 70); 100]);
    let samples = compression_samples(&big, 99);
    // Quality is taken as 50: step 1.
    assert_eq!(samples[0].level, rgb(50, 60, 70));
    assert!(samples[0].edge);
    assert!(!samples[11].edge);
    assert!(samples[17].edge);
    assert!(samples[80].edge);
}

#[test]
fn pixelating_twice_changes_nothing() {
    let frame = img(
        5,
        3,
        vec![
            rgb(0, 0, 0), rgb(10, 20, 30), rgb(100, 100, 100), rgb(7, 8, 9), rgb(200, 1, 2),
            rgb(20, 40, 60), rgb(30, 60, 91), rgb(50, 51, 52), rgb(255, 255, 255), rgb(3, 4, 5),
            rgb(9, 9, 9), rgb(90, 80, 70), rgb(1, 2, 3), rgb(40, 41, 42), rgb(128, 64, 32),
        ],
    );
    for bs in 1..7 {
        let once = pixelate(&frame, bs);
        let twice = pixelate(&once, bs);
        assert_eq!(twice.pixels, once.pixels);
    }
}

fn steps_to_none(mut e: VideoEffect) -> Option<usize> {
    for k in 0..=26 {
        if e == VideoEffect::Passthrough {
            return Some(k);
        }
        e = e.next();
    }
    None
}

#[test]
fn every_setting_returns_within_26_steps() {
    let mut settings = vec![
        VideoEffect::Passthrough,
        VideoEffect::Sepia,
        VideoEffect::Invert,
        VideoEffect::Datamosh { displacement: -128 },
        VideoEffect::Datamosh { displacement: 127 },
        VideoEffect::Glitch { intensity: 255, seed: 7 },
        VideoEffect::MotionGlitch { trail_length: 255 },
        VideoEffect::Contrast { factor_tenths: u32::MAX },
    ];
    for v in 0..=255u8 {
        settings.push(VideoEffect::Compression { quality: v });
        settings.push(VideoEffect::Glitch { intensity: v, seed: 0 });
        settings.push(VideoEffect::MotionGlitch { trail_length: v });
    }
    for v in 1..100usize {
        settings.push(VideoEffect::Pixelate { block_size: v });
        settings.push(VideoEffect::RgbSplit { offset: v });
        settings.push(VideoEffect::Contrast { factor_tenths: v as u32 });
    }
    for e in settings {
        assert!(steps_to_none(e).is_some(), "{:?}", e);
    }
    assert_eq!(steps_to_none(VideoEffect::Pixelate { block_size: 1 }), Some(26));
    assert_eq!(steps_to_none(VideoEffect::Sepia), Some(20));
    assert_eq!(steps_to_none(VideoEffect::Compression { quality: 255 }), Some(16));
}

#[test]
fn zero_pixelate_block_never_returns() {
    let e = VideoEffect::Pixelate { block_size: 0 };
    assert_eq!(e.next(), e);
    assert_eq!(steps_to_none(e), None);
}
