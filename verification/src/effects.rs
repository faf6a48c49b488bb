//! The catalogue of post-processing effects, how the catalogue is cycled,
//! and the integer pixel work of each effect.
//!
//! Contrast factors are kept in tenths (`15` is a factor of 1.5).  Sepia
//! toning and the final mixing stage of the compression look are floating
//! point work and are done by the caller; for compression this module
//! supplies every integer stage (`compression_samples`).
use vstd::prelude::*;
use crate::blocks::{
    block_average, block_averages, extent, lemma_pixel_index, lemma_position,
    lemma_rect_sum_constant, tile_color, tile_origin,
};
use crate::image::{channel, opaque, Color, Image};

verus! {

/// The post-processing effects, each with its parameters.
#[derive(Clone, Copy, Debug, PartialEq, Eq, Structural)]
pub enum VideoEffect {
    /// No effect - passthrough.
    Passthrough,
    /// Heavy pixelation (blocky compression artifacts).
    Pixelate { block_size: usize },
    /// Sepia tone (old film look).
    Sepia,
    /// RGB split / chromatic aberration.
    RgbSplit { offset: usize },
    /// Colour inversion.
    Invert,
    /// High contrast; the factor is in tenths.
    Contrast { factor_tenths: u32 },
    /// H.264/MPEG compression artifacts (DCT blocking, chroma subsampling).
    Compression { quality: u8 },
    /// Decoder corruption (passthrough for now).
    Glitch { intensity: u8, seed: u32 },
    /// Motion trail with corruption (passthrough for now).
    MotionGlitch { trail_length: u8 },
    /// Datamoshing (passthrough for now).
    Datamosh { displacement: i8 },
}

impl Default for VideoEffect {
    fn default() -> (e: VideoEffect)
        ensures
            e == VideoEffect::Passthrough,
    {
        VideoEffect::Passthrough
    }
}

/// The display name of an effect.
pub open spec fn effect_name(e: VideoEffect) -> Seq<char> {
    match e {
        VideoEffect::Passthrough => "NONE"@,
        VideoEffect::Pixelate { .. } => "PIXELATE"@,
        VideoEffect::Sepia => "SEPIA"@,
        VideoEffect::RgbSplit { .. } => "RGB SPLIT"@,
        VideoEffect::Invert => "INVERT"@,
        VideoEffect::Contrast { .. } => "CONTRAST"@,
        VideoEffect::Compression { .. } => "H264"@,
        VideoEffect::Glitch { .. } => "GLITCH"@,
        VideoEffect::MotionGlitch { .. } => "MOTION GLITCH"@,
        VideoEffect::Datamosh { .. } => "DATAMOSH"@,
    }
}

/// The effect that follows `e` when cycling forward.
pub open spec fn next_effect(e: VideoEffect) -> VideoEffect {
    match e {
        VideoEffect::Passthrough => VideoEffect::Pixelate { block_size: 16 },
        VideoEffect::Pixelate { block_size } => if block_size < 32 {
            VideoEffect::Pixelate { block_size: (block_size * 2) as usize }
        } else {
            VideoEffect::Sepia
        },
        VideoEffect::Sepia => VideoEffect::RgbSplit { offset: 5 },
        VideoEffect::RgbSplit { offset } => if offset < 15 {
            VideoEffect::RgbSplit { offset: (offset + 5) as usize }
        } else {
            VideoEffect::Invert
        },
        VideoEffect::Invert => VideoEffect::Contrast { factor_tenths: 15 },
        VideoEffect::Contrast { factor_tenths } => if factor_tenths < 25 {
            VideoEffect::Contrast { factor_tenths: (factor_tenths + 5) as u32 }
        } else {
            VideoEffect::Compression { quality: 20 }
        },
        VideoEffect::Compression { quality } => if quality > 5 {
            VideoEffect::Compression { quality: quality / 2 }
        } else {
            VideoEffect::Glitch { intensity: 3, seed: 0 }
        },
        VideoEffect::Glitch { intensity, .. } => if intensity < 8 {
            VideoEffect::Glitch { intensity: (intensity + 2) as u8, seed: 12345 }
        } else {
            VideoEffect::MotionGlitch { trail_length: 5 }
        },
        VideoEffect::MotionGlitch { trail_length } => if trail_length < 15 {
            VideoEffect::MotionGlitch { trail_length: (trail_length + 5) as u8 }
        } else {
            VideoEffect::Datamosh { displacement: 8 }
        },
        VideoEffect::Datamosh { displacement } => if displacement > 0 {
            VideoEffect::Datamosh { displacement: (-displacement) as i8 }
        } else {
            VideoEffect::Passthrough
        },
    }
}

/// The effect that precedes `e` when cycling backward (scrolling up).
pub open spec fn prev_effect(e: VideoEffect) -> VideoEffect {
    match e {
        VideoEffect::Pixelate { block_size } => if block_size > 8 {
            VideoEffect::Pixelate { block_size: block_size / 2 }
        } else {
            VideoEffect::Passthrough
        },
        VideoEffect::Sepia => VideoEffect::Pixelate { block_size: 32 },
        VideoEffect::RgbSplit { offset } => if offset > 5 {
            VideoEffect::RgbSplit { offset: (offset - 5) as usize }
        } else {
            VideoEffect::Sepia
        },
        VideoEffect::Invert => VideoEffect::RgbSplit { offset: 15 },
        VideoEffect::Contrast { factor_tenths } => if factor_tenths > 15 {
            VideoEffect::Contrast { factor_tenths: (factor_tenths - 5) as u32 }
        } else {
            VideoEffect::Invert
        },
        VideoEffect::Compression { quality } => if quality < 40 {
            VideoEffect::Compression { quality: (quality * 2) as u8 }
        } else {
            VideoEffect::Contrast { factor_tenths: 25 }
        },
        VideoEffect::Glitch { .. } => VideoEffect::Compression { quality: 5 },
        VideoEffect::MotionGlitch { trail_length } => if trail_length > 5 {
            VideoEffect::MotionGlitch { trail_length: (trail_length - 5) as u8 }
        } else {
            VideoEffect::Glitch { intensity: 10, seed: 0 }
        },
        VideoEffect::Datamosh { displacement } => if displacement < 0 {
            VideoEffect::Datamosh { displacement: (-displacement) as i8 }
        } else {
            VideoEffect::MotionGlitch { trail_length: 15 }
        },
        VideoEffect::Passthrough => VideoEffect::Datamosh { displacement: -8i8 },
    }
}

/// Stepping backward is defined for every effect but a displacement of
/// -128, whose negation does not fit.
pub open spec fn prev_defined(e: VideoEffect) -> bool {
    !(e matches VideoEffect::Datamosh { displacement } && displacement == -128)
}

/// Contrast of one channel value with the factor in tenths:
/// `128 + (v - 128) * factor`, rounded down and clamped to `0..=255`.
pub open spec fn contrast_channel(v: u8, factor_tenths: u32) -> u8 {
    let n = 1280 + (v - 128) * factor_tenths;
    if n < 0 {
        0
    } else if n / 10 > 255 {
        255
    } else {
        (n / 10) as u8
    }
}

/// An inverted pixel (alpha becomes opaque).
pub open spec fn invert_pixel(c: Color) -> Color {
    opaque((255 - c.r) as u8, (255 - c.g) as u8, (255 - c.b) as u8)
}

/// A pixel under the contrast effect.
pub open spec fn contrast_pixel(c: Color, factor_tenths: u32) -> Color {
    opaque(
        contrast_channel(c.r, factor_tenths),
        contrast_channel(c.g, factor_tenths),
        contrast_channel(c.b, factor_tenths),
    )
}

/// The channel shift used by the RGB split: the requested offset, at most a
/// quarter of the width.
pub open spec fn split_shift(offset: int, w: int) -> int {
    if offset <= w / 4 {
        offset
    } else {
        w / 4
    }
}

/// Pixel `i` under the RGB split with shift `d`: red from `d` pixels to the
/// right (clamped to the row end and the buffer), green from the pixel
/// itself, blue from `d` pixels to the left (clamped to the row start).
pub open spec fn split_pixel(s: Seq<Color>, w: int, d: int, i: int) -> Color {
    let x = i % w;
    let row = i - x;
    let rx = if x + d <= w - 1 {
        x + d
    } else {
        w - 1
    };
    let ri = if row + rx <= s.len() - 1 {
        row + rx
    } else {
        s.len() - 1
    };
    let bx = if x >= d {
        x - d
    } else {
        0
    };
    opaque(s[ri].r, s[i].g, s[row + bx].b)
}

/// What an effect computes in integers: the output pixels for every effect
/// but sepia and compression.
pub open spec fn effect_pixels(e: VideoEffect, img: Image) -> Seq<Color> {
    let s = img.pixels@;
    let w = img.width as int;
    let h = img.height as int;
    match e {
        VideoEffect::Pixelate { block_size } => Seq::new(
            s.len(),
            |i: int| block_average(s, w, h, block_size as int, i % w, i / w),
        ),
        VideoEffect::RgbSplit { offset } => Seq::new(
            s.len(),
            |i: int| split_pixel(s, w, split_shift(offset as int, w), i),
        ),
        VideoEffect::Invert => Seq::new(s.len(), |i: int| invert_pixel(s[i])),
        VideoEffect::Contrast { factor_tenths } => Seq::new(
            s.len(),
            |i: int| contrast_pixel(s[i], factor_tenths),
        ),
        _ => s,
    }
}

/// Sepia and compression mix colours in floating point.
pub open spec fn needs_float_stage(e: VideoEffect) -> bool {
    e is Sepia || e is Compression
}

impl VideoEffect {
    /// Display name.
    pub fn name(&self) -> (n: &'static str)
        ensures
            n@ == effect_name(*self),
    {
        match self {
            VideoEffect::Passthrough => "NONE",
            VideoEffect::Pixelate { .. } => "PIXELATE",
            VideoEffect::Sepia => "SEPIA",
            VideoEffect::RgbSplit { .. } => "RGB SPLIT",
            VideoEffect::Invert => "INVERT",
            VideoEffect::Contrast { .. } => "CONTRAST",
            VideoEffect::Compression { .. } => "H264",
            VideoEffect::Glitch { .. } => "GLITCH",
            VideoEffect::MotionGlitch { .. } => "MOTION GLITCH",
            VideoEffect::Datamosh { .. } => "DATAMOSH",
        }
    }

    /// Cycle to the next effect.
    pub fn next(&self) -> (e: VideoEffect)
        ensures
            e == next_effect(*self),
    {
        match *self {
            VideoEffect::Passthrough => VideoEffect::Pixelate { block_size: 16 },
            VideoEffect::Pixelate { block_size } => if block_size < 32 {
                VideoEffect::Pixelate { block_size: block_size * 2 }
            } else {
                VideoEffect::Sepia
            },
            VideoEffect::Sepia => VideoEffect::RgbSplit { offset: 5 },
            VideoEffect::RgbSplit { offset } => if offset < 15 {
                VideoEffect::RgbSplit { offset: offset + 5 }
            } else {
                VideoEffect::Invert
            },
            VideoEffect::Invert => VideoEffect::Contrast { factor_tenths: 15 },
            VideoEffect::Contrast { factor_tenths } => if factor_tenths < 25 {
                VideoEffect::Contrast { factor_tenths: factor_tenths + 5 }
            } else {
                VideoEffect::Compression { quality: 20 }
            },
            VideoEffect::Compression { quality } => if quality > 5 {
                VideoEffect::Compression { quality: quality / 2 }
            } else {
                VideoEffect::Glitch { intensity: 3, seed: 0 }
            },
            VideoEffect::Glitch { intensity, .. } => if intensity < 8 {
                VideoEffect::Glitch { intensity: intensity + 2, seed: 12345 }
            } else {
                VideoEffect::MotionGlitch { trail_length: 5 }
            },
            VideoEffect::MotionGlitch { trail_length } => if trail_length < 15 {
                VideoEffect::MotionGlitch { trail_length: trail_length + 5 }
            } else {
                VideoEffect::Datamosh { displacement: 8 }
            },
            VideoEffect::Datamosh { displacement } => if displacement > 0 {
                VideoEffect::Datamosh { displacement: -displacement }
            } else {
                VideoEffect::Passthrough
            },
        }
    }

    /// Cycle to the previous effect.
    pub fn prev(&self) -> (e: VideoEffect)
        requires
            prev_defined(*self),
        ensures
            e == prev_effect(*self),
    {
        match *self {
            VideoEffect::Pixelate { block_size } => if block_size > 8 {
                VideoEffect::Pixelate { block_size: block_size / 2 }
            } else {
                VideoEffect::Passthrough
            },
            VideoEffect::Sepia => VideoEffect::Pixelate { block_size: 32 },
            VideoEffect::RgbSplit { offset } => if offset > 5 {
                VideoEffect::RgbSplit { offset: offset - 5 }
            } else {
                VideoEffect::Sepia
            },
            VideoEffect::Invert => VideoEffect::RgbSplit { offset: 15 },
            VideoEffect::Contrast { factor_tenths } => if factor_tenths > 15 {
                VideoEffect::Contrast { factor_tenths: factor_tenths - 5 }
            } else {
                VideoEffect::Invert
            },
            VideoEffect::Compression { quality } => if quality < 40 {
                VideoEffect::Compression { quality: quality * 2 }
            } else {
                VideoEffect::Contrast { factor_tenths: 25 }
            },
            VideoEffect::Glitch { .. } => VideoEffect::Compression { quality: 5 },
            VideoEffect::MotionGlitch { trail_length } => if trail_length > 5 {
                VideoEffect::MotionGlitch { trail_length: trail_length - 5 }
            } else {
                VideoEffect::Glitch { intensity: 10, seed: 0 }
            },
            VideoEffect::Datamosh { displacement } => if displacement < 0 {
                VideoEffect::Datamosh { displacement: -displacement }
            } else {
                VideoEffect::MotionGlitch { trail_length: 15 }
            },
            VideoEffect::Passthrough => VideoEffect::Datamosh { displacement: -8 },
        }
    }

    /// Apply the effect to a frame.  Returns `None` for the effects whose
    /// colour mixing is floating point (sepia, compression): the caller
    /// finishes those.
    pub fn apply(&self, input: &Image) -> (out: Option<Image>)
        requires
            input.wf(),
            self matches VideoEffect::Pixelate { block_size } ==> block_size > 0,
        ensures
            needs_float_stage(*self) <==> out is None,
            out matches Some(img) ==> {
                &&& img.wf()
                &&& img.width == input.width
                &&& img.height == input.height
                &&& img.pixels@ == effect_pixels(*self, *input)
            },
    {
        match *self {
            VideoEffect::Sepia => None,
            VideoEffect::Compression { .. } => None,
            VideoEffect::Pixelate { block_size } => Some(pixelate(input, block_size)),
            VideoEffect::RgbSplit { offset } => Some(rgb_split(input, offset)),
            VideoEffect::Invert => Some(invert(input)),
            VideoEffect::Contrast { factor_tenths } => Some(contrast(input, factor_tenths)),
            _ => Some(input.duplicate()),
        }
    }
}

/// Pixelation: every pixel takes the mean colour of its `block_size` tile.
pub fn pixelate(input: &Image, block_size: usize) -> (out: Image)
    requires
        input.wf(),
        block_size > 0,
    ensures
        out.wf(),
        out.width == input.width,
        out.height == input.height,
        out.pixels@ == effect_pixels(VideoEffect::Pixelate { block_size }, *input),
{
    let pixels: Vec<Color> = block_averages(input, block_size);
    let out = Image { width: input.width, height: input.height, pixels };
    assert(out.pixels@ =~= effect_pixels(VideoEffect::Pixelate { block_size }, *input));
    out
}

/// Colour inversion of every pixel.
pub fn invert(input: &Image) -> (out: Image)
    requires
        input.wf(),
    ensures
        out.wf(),
        out.width == input.width,
        out.height == input.height,
        out.pixels@ == effect_pixels(VideoEffect::Invert, *input),
{
    let n: usize = input.pixels.len();
    let mut pixels: Vec<Color> = Vec::new();
    let mut i: usize = 0;
    while i < n
        invariant
            n == input.pixels@.len(),
            i <= n,
            pixels@.len() == i,
            forall|k: int| 0 <= k < i ==> #[trigger] pixels@[k] == invert_pixel(input.pixels@[k]),
        decreases n - i,
    {
        let p: Color = input.pixels[i];
        pixels.push(Color::from_rgb(255 - p.r, 255 - p.g, 255 - p.b));
        i = i + 1;
    }
    let out = Image { width: input.width, height: input.height, pixels };
    assert(out.pixels@ =~= effect_pixels(VideoEffect::Invert, *input));
    out
}

/// One channel under contrast, computed without floating point.
fn contrast_value(v: u8, factor_tenths: u32) -> (r: u8)
    ensures
        r == contrast_channel(v, factor_tenths),
{
    assert((v as int) * (factor_tenths as int) <= 255 * 4294967295
        && (v - 128) * factor_tenths == (v as int) * (factor_tenths as int) - 128 * factor_tenths)
        by (nonlinear_arith)
        requires
            0 <= v <= 255,
            0 <= factor_tenths <= 4294967295,
    ;
    let pos: u64 = 1280 + (v as u64) * (factor_tenths as u64);
    let neg: u64 = 128 * (factor_tenths as u64);
    if pos < neg {
        0
    } else {
        let q: u64 = (pos - neg) / 10;
        if q > 255 {
            255
        } else {
            q as u8
        }
    }
}

/// Contrast stretch around mid-grey with the factor in tenths.
pub fn contrast(input: &Image, factor_tenths: u32) -> (out: Image)
    requires
        input.wf(),
    ensures
        out.wf(),
        out.width == input.width,
        out.height == input.height,
        out.pixels@ == effect_pixels(VideoEffect::Contrast { factor_tenths }, *input),
{
    let n: usize = input.pixels.len();
    let mut pixels: Vec<Color> = Vec::new();
    let mut i: usize = 0;
    while i < n
        invariant
            n == input.pixels@.len(),
            i <= n,
            pixels@.len() == i,
            forall|k: int|
                0 <= k < i ==> #[trigger] pixels@[k] == contrast_pixel(input.pixels@[k], factor_tenths),
        decreases n - i,
    {
        let p: Color = input.pixels[i];
        let r: u8 = contrast_value(p.r, factor_tenths);
        let g: u8 = contrast_value(p.g, factor_tenths);
        let b: u8 = contrast_value(p.b, factor_tenths);
        pixels.push(Color::from_rgb(r, g, b));
        i = i + 1;
    }
    let out = Image { width: input.width, height: input.height, pixels };
    assert(out.pixels@ =~= effect_pixels(VideoEffect::Contrast { factor_tenths }, *input));
    out
}

/// RGB split: red taken from the right, blue from the left.
pub fn rgb_split(input: &Image, offset: usize) -> (out: Image)
    requires
        input.wf(),
    ensures
        out.wf(),
        out.width == input.width,
        out.height == input.height,
        out.pixels@ == effect_pixels(VideoEffect::RgbSplit { offset }, *input),
{
    let w: usize = input.width;
    let n: usize = input.pixels.len();
    let ghost s = input.pixels@;
    let d: usize = if offset <= w / 4 {
        offset
    } else {
        w / 4
    };
    let mut pixels: Vec<Color> = Vec::new();
    let mut i: usize = 0;
    while i < n
        invariant
            input.wf(),
            s == input.pixels@,
            w == input.width,
            n == s.len(),
            d == split_shift(offset as int, w as int),
            i <= n,
            pixels@.len() == i,
            forall|k: int| 0 <= k < i ==> #[trigger] pixels@[k] == split_pixel(s, w as int, d as int, k),
        decreases n - i,
    {
        assert(w > 0) by (nonlinear_arith)
            requires
                i < n,
                n == w * input.height,
        ;
        let x: usize = i % w;
        assert(0 <= x < w && x <= i && (i - x) + w <= n) by (nonlinear_arith)
            requires
                x == i % w,
                0 < w,
                i < n,
                n == w * input.height,
        ;
        let row: usize = i - x;
        let rx: usize = if d <= (w - 1) - x {
            x + d
        } else {
            w - 1
        };
        let ri: usize = if row + rx <= n - 1 {
            row + rx
        } else {
            n - 1
        };
        let bx: usize = if x >= d {
            x - d
        } else {
            0
        };
        let r: u8 = input.pixels[ri].r;
        let g: u8 = input.pixels[i].g;
        let b: u8 = input.pixels[row + bx].b;
        pixels.push(Color::from_rgb(r, g, b));
        i = i + 1;
    }
    let out = Image { width: w, height: input.height, pixels };
    assert(out.pixels@ =~= effect_pixels(VideoEffect::RgbSplit { offset }, *input));
    out
}

/// One pixel of the compression look before its floating-point mixing:
/// the chroma-subsampled colour, the quantized mean of its 8x8 block, and
/// whether it lies on the block's border.
#[derive(Clone, Copy, Debug, PartialEq, Eq, Structural)]
pub struct CompressionSample {
    pub base: Color,
    pub level: Color,
    pub edge: bool,
}

/// `v + d`, capped at 255.
pub open spec fn capped_sum(v: u8, d: int) -> u8 {
    if v + d > 255 {
        255
    } else {
        (v + d) as u8
    }
}

/// A pixel after 4:2:0 chroma subsampling: the colour of its 2x2 block,
/// brightened by how much brighter the pixel was than that colour.
pub open spec fn chroma_pixel(orig: Color, avg: Color) -> Color {
    let luma = (orig.r + orig.g + orig.b) / 3;
    let color_luma = (avg.r + avg.g + avg.b) / 3;
    let diff = if luma >= color_luma {
        luma - color_luma
    } else {
        0
    };
    opaque(capped_sum(avg.r, diff), capped_sum(avg.g, diff), capped_sum(avg.b, diff))
}

/// The whole frame after chroma subsampling.
pub open spec fn chroma_pixels(s: Seq<Color>, w: int, h: int) -> Seq<Color> {
    Seq::new(s.len(), |i: int| chroma_pixel(s[i], block_average(s, w, h, 2, i % w, i / w)))
}

/// Quantization step for a quality setting (quality is taken in `1..=50`).
pub open spec fn quant_step(quality: u8) -> int {
    let q = if quality < 1 {
        1
    } else if quality > 50 {
        50
    } else {
        quality as int
    };
    51 - q
}

/// A channel value rounded down to a multiple of the step.
pub open spec fn quantize(v: u8, step: int) -> u8 {
    (((v as int) / step) * step) as u8
}

/// Whether `v` is on the first or last line of its tile of size `bs`
/// inside a length `n`.
pub open spec fn on_tile_border(v: int, bs: int, n: int) -> bool {
    let o = tile_origin(v, bs);
    v == o || v == o + extent(o, bs, n) - 1
}

/// The compression sample of position `i` of a frame whose subsampled
/// pixels are `sub`.
pub open spec fn compression_sample_at(sub: Seq<Color>, w: int, h: int, step: int, i: int) -> CompressionSample {
    let x = i % w;
    let y = i / w;
    let avg = block_average(sub, w, h, 8, x, y);
    CompressionSample {
        base: sub[i],
        level: opaque(quantize(avg.r, step), quantize(avg.g, step), quantize(avg.b, step)),
        edge: on_tile_border(x, 8, w) || on_tile_border(y, 8, h),
    }
}

/// Chroma subsampling in 2x2 blocks (first stage of the compression look).
pub fn chroma_subsample(input: &Image) -> (out: Image)
    requires
        input.wf(),
    ensures
        out.wf(),
        out.width == input.width,
        out.height == input.height,
        out.pixels@ == chroma_pixels(input.pixels@, input.width as int, input.height as int),
{
    let avgs: Vec<Color> = block_averages(input, 2);
    let n: usize = input.pixels.len();
    let mut pixels: Vec<Color> = Vec::new();
    let mut i: usize = 0;
    while i < n
        invariant
            n == input.pixels@.len(),
            avgs@.len() == n,
            forall|k: int|
                0 <= k < n ==> #[trigger] avgs@[k] == block_average(
                    input.pixels@,
                    input.width as int,
                    input.height as int,
                    2,
                    k % (input.width as int),
                    k / (input.width as int),
                ),
            i <= n,
            pixels@.len() == i,
            forall|k: int|
                0 <= k < i ==> #[trigger] pixels@[k] == chroma_pixel(input.pixels@[k], avgs@[k]),
        decreases n - i,
    {
        let o: Color = input.pixels[i];
        let a: Color = avgs[i];
        let luma: u16 = (o.r as u16 + o.g as u16 + o.b as u16) / 3;
        let color_luma: u16 = (a.r as u16 + a.g as u16 + a.b as u16) / 3;
        let diff: u16 = luma.saturating_sub(color_luma);
        let r: u16 = if a.r as u16 + diff > 255 { 255 } else { a.r as u16 + diff };
        let g: u16 = if a.g as u16 + diff > 255 { 255 } else { a.g as u16 + diff };
        let b: u16 = if a.b as u16 + diff > 255 { 255 } else { a.b as u16 + diff };
        pixels.push(Color::from_rgb(r as u8, g as u8, b as u8));
        i = i + 1;
    }
    let out = Image { width: input.width, height: input.height, pixels };
    assert(out.pixels@ =~= chroma_pixels(input.pixels@, input.width as int, input.height as int));
    out
}

/// A channel value rounded down to a multiple of `step`.
fn quantize_value(v: u8, step: u16) -> (r: u8)
    requires
        1 <= step <= 50,
    ensures
        r == quantize(v, step as int),
{
    let q: u16 = (v as u16) / step;
    assert(0 <= q * step <= v) by (nonlinear_arith)
        requires
            q == (v as int) / (step as int),
            1 <= step,
            0 <= v,
    ;
    (q * step) as u8
}

/// Whether `v` is on the border of its tile of size 8 inside length `n`.
fn tile_border(v: usize, n: usize) -> (b: bool)
    requires
        v < n,
    ensures
        b == on_tile_border(v as int, 8, n as int),
{
    let o: usize = v / 8 * 8;
    let len: usize = if n - o >= 8 { 8 } else { n - o };
    v == o || v == o + len - 1
}

/// The integer stages of the compression look: chroma subsampling, then
/// for each pixel its subsampled colour, the mean of its 8x8 block
/// quantized with the quality's step, and whether it is on the block border.
pub fn compression_samples(input: &Image, quality: u8) -> (out: Vec<CompressionSample>)
    requires
        input.wf(),
    ensures
        out@.len() == input.pixels@.len(),
        forall|i: int|
            0 <= i < out@.len() ==> #[trigger] out@[i] == compression_sample_at(
                chroma_pixels(input.pixels@, input.width as int, input.height as int),
                input.width as int,
                input.height as int,
                quant_step(quality),
                i,
            ),
{
    let sub: Image = chroma_subsample(input);
    let avgs: Vec<Color> = block_averages(&sub, 8);
    let q: u8 = if quality < 1 { 1 } else if quality > 50 { 50 } else { quality };
    let step: u16 = (51 - q) as u16;
    let w: usize = sub.width;
    let n: usize = sub.pixels.len();
    let ghost ss = sub.pixels@;
    let mut out: Vec<CompressionSample> = Vec::new();
    let mut i: usize = 0;
    while i < n
        invariant
            sub.wf(),
            ss == sub.pixels@,
            ss == chroma_pixels(input.pixels@, input.width as int, input.height as int),
            w == sub.width,
            sub.width == input.width,
            sub.height == input.height,
            n == ss.len(),
            step == quant_step(quality),
            avgs@.len() == n,
            forall|k: int|
                0 <= k < n ==> #[trigger] avgs@[k] == block_average(
                    ss,
                    w as int,
                    sub.height as int,
                    8,
                    k % (w as int),
                    k / (w as int),
                ),
            i <= n,
            out@.len() == i,
            forall|k: int|
                0 <= k < i ==> #[trigger] out@[k] == compression_sample_at(
                    ss,
                    w as int,
                    sub.height as int,
                    step as int,
                    k,
                ),
        decreases n - i,
    {
        assert(w > 0) by (nonlinear_arith)
            requires
                i < n,
                n == w * sub.height,
        ;
        let x: usize = i % w;
        let y: usize = i / w;
        proof {
            crate::blocks::lemma_position(i as int, w as int, sub.height as int);
        }
        let a: Color = avgs[i];
        let level: Color = Color::from_rgb(
            quantize_value(a.r, step),
            quantize_value(a.g, step),
            quantize_value(a.b, step),
        );
        let edge: bool = tile_border(x, w) || tile_border(y, sub.height);
        out.push(CompressionSample { base: sub.pixels[i], level, edge });
        i = i + 1;
    }
    out
}

/// The effect reached after `n` forward steps from `e`.
pub open spec fn advance(e: VideoEffect, n: nat) -> VideoEffect
    decreases n,
{
    if n == 0 {
        e
    } else {
        next_effect(advance(e, (n - 1) as nat))
    }
}

/// Number of effects in the forward cycle.
pub open spec fn cycle_length() -> nat {
    23
}

/// The settings met along the forward cycle from no effect.
pub proof fn lemma_advance_values()
    ensures
        advance(VideoEffect::Passthrough, 0) == VideoEffect::Passthrough,
        advance(VideoEffect::Passthrough, 1) == (VideoEffect::Pixelate { block_size: 16 }),
        advance(VideoEffect::Passthrough, 2) == (VideoEffect::Pixelate { block_size: 32 }),
        advance(VideoEffect::Passthrough, 3) == VideoEffect::Sepia,
        advance(VideoEffect::Passthrough, 4) == (VideoEffect::RgbSplit { offset: 5 }),
        advance(VideoEffect::Passthrough, 5) == (VideoEffect::RgbSplit { offset: 10 }),
        advance(VideoEffect::Passthrough, 6) == (VideoEffect::RgbSplit { offset: 15 }),
        advance(VideoEffect::Passthrough, 7) == VideoEffect::Invert,
        advance(VideoEffect::Passthrough, 8) == (VideoEffect::Contrast { factor_tenths: 15 }),
        advance(VideoEffect::Passthrough, 9) == (VideoEffect::Contrast { factor_tenths: 20 }),
        advance(VideoEffect::Passthrough, 10) == (VideoEffect::Contrast { factor_tenths: 25 }),
        advance(VideoEffect::Passthrough, 11) == (VideoEffect::Compression { quality: 20 }),
        advance(VideoEffect::Passthrough, 12) == (VideoEffect::Compression { quality: 10 }),
        advance(VideoEffect::Passthrough, 13) == (VideoEffect::Compression { quality: 5 }),
        advance(VideoEffect::Passthrough, 14) == (VideoEffect::Glitch { intensity: 3, seed: 0 }),
        advance(VideoEffect::Passthrough, 15) == (VideoEffect::Glitch { intensity: 5, seed: 12345 }),
        advance(VideoEffect::Passthrough, 16) == (VideoEffect::Glitch { intensity: 7, seed: 12345 }),
        advance(VideoEffect::Passthrough, 17) == (VideoEffect::Glitch { intensity: 9, seed: 12345 }),
        advance(VideoEffect::Passthrough, 18) == (VideoEffect::MotionGlitch { trail_length: 5 }),
        advance(VideoEffect::Passthrough, 19) == (VideoEffect::MotionGlitch { trail_length: 10 }),
        advance(VideoEffect::Passthrough, 20) == (VideoEffect::MotionGlitch { trail_length: 15 }),
        advance(VideoEffect::Passthrough, 21) == (VideoEffect::Datamosh { displacement: 8 }),
        advance(VideoEffect::Passthrough, 22) == (VideoEffect::Datamosh { displacement: -8i8 }),
        advance(VideoEffect::Passthrough, 23) == VideoEffect::Passthrough,
{
    let p = VideoEffect::Passthrough;
    assert(advance(p, 0) == VideoEffect::Passthrough);
    assert(advance(p, 1) == VideoEffect::Pixelate { block_size: 16 });
    assert(advance(p, 2) == VideoEffect::Pixelate { block_size: 32 });
    assert(advance(p, 3) == VideoEffect::Sepia);
    assert(advance(p, 4) == VideoEffect::RgbSplit { offset: 5 });
    assert(advance(p, 5) == VideoEffect::RgbSplit { offset: 10 });
    assert(advance(p, 6) == VideoEffect::RgbSplit { offset: 15 });
    assert(advance(p, 7) == VideoEffect::Invert);
    assert(advance(p, 8) == VideoEffect::Contrast { factor_tenths: 15 });
    assert(advance(p, 9) == VideoEffect::Contrast { factor_tenths: 20 });
    assert(advance(p, 10) == VideoEffect::Contrast { factor_tenths: 25 });
    assert(advance(p, 11) == VideoEffect::Compression { quality: 20 });
    assert(advance(p, 12) == VideoEffect::Compression { quality: 10 });
    assert(advance(p, 13) == VideoEffect::Compression { quality: 5 });
    assert(advance(p, 14) == VideoEffect::Glitch { intensity: 3, seed: 0 });
    assert(advance(p, 15) == VideoEffect::Glitch { intensity: 5, seed: 12345 });
    assert(advance(p, 16) == VideoEffect::Glitch { intensity: 7, seed: 12345 });
    assert(advance(p, 17) == VideoEffect::Glitch { intensity: 9, seed: 12345 });
    assert(advance(p, 18) == VideoEffect::MotionGlitch { trail_length: 5 });
    assert(advance(p, 19) == VideoEffect::MotionGlitch { trail_length: 10 });
    assert(advance(p, 20) == VideoEffect::MotionGlitch { trail_length: 15 });
    assert(advance(p, 21) == VideoEffect::Datamosh { displacement: 8 });
    assert(advance(p, 22) == VideoEffect::Datamosh { displacement: -8i8 });
    assert(advance(p, 23) == VideoEffect::Passthrough);
}

/// Cycling forward from no effect comes back to no effect after exactly
/// `cycle_length()` steps, and not before.
pub proof fn lemma_cycle_returns_to_passthrough()
    ensures
        advance(VideoEffect::Passthrough, cycle_length()) == VideoEffect::Passthrough,
        forall|i: nat|
            0 < i < cycle_length() ==> #[trigger] advance(VideoEffect::Passthrough, i)
                != VideoEffect::Passthrough,
{
    let p = VideoEffect::Passthrough;
    lemma_advance_values();
    assert forall|i: nat| 0 < i < cycle_length() implies #[trigger] advance(p, i) != p by {
        if i == 1 {
        } else if i == 2 {
        } else if i == 3 {
        } else if i == 4 {
        } else if i == 5 {
        } else if i == 6 {
        } else if i == 7 {
        } else if i == 8 {
        } else if i == 9 {
        } else if i == 10 {
        } else if i == 11 {
        } else if i == 12 {
        } else if i == 13 {
        } else if i == 14 {
        } else if i == 15 {
        } else if i == 16 {
        } else if i == 17 {
        } else if i == 18 {
        } else if i == 19 {
        } else if i == 20 {
        } else if i == 21 {
        } else if i == 22 {
        }
    }
}

/// The settings where a step backward does not undo a step forward:
/// from no effect, 2.5 contrast and the four glitch settings.
pub open spec fn prev_misses_step(e: VideoEffect) -> bool {
    ||| e == VideoEffect::Passthrough
    ||| e == VideoEffect::Contrast { factor_tenths: 25 }
    ||| e is Glitch
}

/// On the forward cycle, scrolling back (previous effect) undoes a step
/// forward (next effect), except at the settings of `prev_misses_step`.
pub proof fn lemma_prev_undoes_next(k: nat)
    requires
        k < cycle_length(),
        !prev_misses_step(advance(VideoEffect::Passthrough, k)),
    ensures
        prev_defined(next_effect(advance(VideoEffect::Passthrough, k))),
        prev_effect(next_effect(advance(VideoEffect::Passthrough, k))) == advance(
            VideoEffect::Passthrough,
            k,
        ),
{
    lemma_advance_values();
    assert(advance(VideoEffect::Passthrough, k + 1) == next_effect(advance(VideoEffect::Passthrough, k)));
    if k == 0 {
    } else if k == 1 {
    } else if k == 2 {
    } else if k == 3 {
    } else if k == 4 {
    } else if k == 5 {
    } else if k == 6 {
    } else if k == 7 {
    } else if k == 8 {
    } else if k == 9 {
    } else if k == 10 {
    } else if k == 11 {
    } else if k == 12 {
    } else if k == 13 {
    } else if k == 14 {
    } else if k == 15 {
    } else if k == 16 {
    } else if k == 17 {
    } else if k == 18 {
    } else if k == 19 {
    } else if k == 20 {
    } else if k == 21 {
    } else if k == 22 {
    }
}

/// Inverting an opaque frame twice gives the frame back.
pub proof fn lemma_invert_twice(img: Image, once: Image)
    requires
        img.wf(),
        forall|i: int| 0 <= i < img.pixels@.len() ==> (#[trigger] img.pixels@[i]).a == 255,
        once.width == img.width,
        once.height == img.height,
        once.pixels@ == effect_pixels(VideoEffect::Invert, img),
    ensures
        effect_pixels(VideoEffect::Invert, once) == img.pixels@,
{
    assert(effect_pixels(VideoEffect::Invert, once) =~= img.pixels@);
}

/// In a pixelated frame `t` (each pixel the colour of its tile in `s`), the
/// tile that holds pixel `i` is one colour, so its mean is that colour.
proof fn lemma_pixelated_tile(s: Seq<Color>, t: Seq<Color>, w: int, h: int, bs: int, i: int)
    requires
        0 <= w,
        0 <= h,
        0 < bs,
        s.len() == w * h,
        t.len() == s.len(),
        forall|j: int|
            0 <= j < t.len() ==> #[trigger] t[j] == block_average(s, w, h, bs, j % w, j / w),
        0 <= i < t.len(),
    ensures
        block_average(t, w, h, bs, i % w, i / w) == t[i],
{
    assert(0 < w) by (nonlinear_arith)
        requires
            0 <= w,
            0 <= h,
            0 <= i < w * h,
    ;
    lemma_position(i, w, h);
    let x = i % w;
    let y = i / w;
    let qx = x / bs;
    let qy = y / bs;
    let x0 = tile_origin(x, bs);
    let y0 = tile_origin(y, bs);
    assert(0 <= qx * bs <= x < qx * bs + bs) by (nonlinear_arith)
        requires
            0 <= x,
            0 < bs,
            qx == x / bs,
    ;
    assert(0 <= qy * bs <= y < qy * bs + bs) by (nonlinear_arith)
        requires
            0 <= y,
            0 < bs,
            qy == y / bs,
    ;
    let bw = extent(x0, bs, w);
    let bh = extent(y0, bs, h);
    let c = tile_color(s, w, h, bs, x0, y0);
    assert forall|dy: int, dx: int| 0 <= dy < bh && 0 <= dx < bw implies #[trigger] t[(y0 + dy) * w
        + x0 + dx] == c by {
        let j = (y0 + dy) * w + x0 + dx;
        lemma_pixel_index(w, h, x0 + dx, y0 + dy);
        vstd::arithmetic::div_mod::lemma_fundamental_div_mod_converse(j, w, y0 + dy, x0 + dx);
        vstd::arithmetic::div_mod::lemma_fundamental_div_mod_converse(x0 + dx, bs, qx, dx);
        vstd::arithmetic::div_mod::lemma_fundamental_div_mod_converse(y0 + dy, bs, qy, dy);
        assert(t[j] == block_average(s, w, h, bs, j % w, j / w));
    }
    assert(0 < bw * bh) by (nonlinear_arith)
        requires
            0 < bw,
            0 < bh,
    ;
    lemma_rect_sum_constant(t, w, x0, y0, bw as nat, bh as nat, 0, c);
    lemma_rect_sum_constant(t, w, x0, y0, bw as nat, bh as nat, 1, c);
    lemma_rect_sum_constant(t, w, x0, y0, bw as nat, bh as nat, 2, c);
    vstd::arithmetic::div_mod::lemma_div_multiples_vanish(channel(c, 0), bw * bh);
    vstd::arithmetic::div_mod::lemma_div_multiples_vanish(channel(c, 1), bw * bh);
    vstd::arithmetic::div_mod::lemma_div_multiples_vanish(channel(c, 2), bw * bh);
    assert(t[i] == block_average(s, w, h, bs, x, y));
}

/// Pixelating a pixelated frame again with the same block size changes
/// nothing: every tile is already one opaque colour.
pub proof fn lemma_pixelate_twice(img: Image, once: Image, block_size: usize)
    requires
        img.wf(),
        block_size > 0,
        once.width == img.width,
        once.height == img.height,
        once.pixels@ == effect_pixels(VideoEffect::Pixelate { block_size }, img),
    ensures
        effect_pixels(VideoEffect::Pixelate { block_size }, once) == once.pixels@,
{
    let s = img.pixels@;
    let t = once.pixels@;
    let w = img.width as int;
    let h = img.height as int;
    let bs = block_size as int;
    assert forall|i: int| 0 <= i < t.len() implies block_average(t, w, h, bs, i % w, i / w)
        == t[i] by {
        lemma_pixelated_tile(s, t, w, h, bs, i);
    }
    assert(effect_pixels(VideoEffect::Pixelate { block_size }, once) =~= t);
}

/// Stepping `k + 1` times from `e` is stepping `k` times from the effect
/// after `e`.
pub proof fn lemma_advance_shift(e: VideoEffect, k: nat)
    ensures
        advance(e, k + 1) == advance(next_effect(e), k),
    decreases k,
{
    if k > 0 {
        lemma_advance_shift(e, (k - 1) as nat);
        assert(advance(e, k + 1) == next_effect(advance(e, k)));
        assert(advance(next_effect(e), k) == next_effect(advance(next_effect(e), (k - 1) as nat)));
    } else {
        assert(advance(e, 0) == e);
        assert(advance(e, 1) == next_effect(advance(e, 0)));
    }
}

/// Stepping `a + b` times is stepping `a` times, then `b` times.
pub proof fn lemma_advance_add(e: VideoEffect, a: nat, b: nat)
    ensures
        advance(e, a + b) == advance(advance(e, a), b),
    decreases b,
{
    if b > 0 {
        lemma_advance_add(e, a, (b - 1) as nat);
    }
}

/// How many times a pixelate block size below 32 doubles before it reaches 32.
pub open spec fn doublings(block_size: int) -> nat
    decreases (if block_size < 32 {
        32 - block_size
    } else {
        0
    }),
{
    if block_size <= 0 || block_size >= 32 {
        0
    } else {
        1 + doublings(block_size * 2)
    }
}

/// How many times a compression quality above 5 halves before it is at most 5.
pub open spec fn halvings(quality: int) -> nat
    decreases quality,
{
    if quality <= 5 {
        0
    } else {
        1 + halvings(quality / 2)
    }
}

/// Forward steps from `e` back to no effect (for every effect but a zero
/// pixelate block, which never leaves itself).
pub open spec fn steps_home(e: VideoEffect) -> nat {
    match e {
        VideoEffect::Passthrough => 0,
        VideoEffect::Pixelate { block_size } => 21 + doublings(block_size as int),
        VideoEffect::Sepia => 20,
        VideoEffect::RgbSplit { offset } => if offset < 15 {
            (17 + (19 - offset) / 5) as nat
        } else {
            17
        },
        VideoEffect::Invert => 16,
        VideoEffect::Contrast { factor_tenths } => if factor_tenths < 25 {
            (13 + (29 - factor_tenths) / 5) as nat
        } else {
            13
        },
        VideoEffect::Compression { quality } => 10 + halvings(quality as int),
        VideoEffect::Glitch { intensity, .. } => if intensity < 8 {
            (6 + (9 - intensity) / 2) as nat
        } else {
            6
        },
        VideoEffect::MotionGlitch { trail_length } => if trail_length < 15 {
            (3 + (19 - trail_length) / 5) as nat
        } else {
            3
        },
        VideoEffect::Datamosh { displacement } => if displacement > 0 {
            2
        } else {
            1
        },
    }
}

/// One step forward brings every setting but no effect and a zero pixelate
/// block one step closer to no effect.
proof fn lemma_steps_home_next(e: VideoEffect)
    requires
        e != VideoEffect::Passthrough,
        e != (VideoEffect::Pixelate { block_size: 0 }),
    ensures
        next_effect(e) != (VideoEffect::Pixelate { block_size: 0 }),
        steps_home(next_effect(e)) + 1 == steps_home(e),
{
    match e {
        VideoEffect::Pixelate { block_size } => {
            if block_size < 32 {
                assert(doublings(block_size as int) == 1 + doublings(block_size * 2));
            }
        },
        VideoEffect::Compression { quality } => {
            if quality > 5 {
                assert(halvings(quality as int) == 1 + halvings((quality / 2) as int));
            } else {
                assert(halvings(quality as int) == 0);
            }
        },
        VideoEffect::Sepia => {
            assert(steps_home(next_effect(e)) == 19);
        },
        VideoEffect::Invert => {
            assert(steps_home(next_effect(e)) == 15);
        },
        VideoEffect::Contrast { factor_tenths } => {
            if factor_tenths >= 25 {
                reveal_with_fuel(halvings, 4);
                assert(halvings(20) == 2);
            }
        },
        _ => {},
    }
}

/// From every setting but a zero pixelate block, `steps_home` forward steps
/// lead back to no effect.
proof fn lemma_steps_home_reach(e: VideoEffect)
    requires
        e != (VideoEffect::Pixelate { block_size: 0 }),
    ensures
        advance(e, steps_home(e)) == VideoEffect::Passthrough,
    decreases steps_home(e),
{
    if e != VideoEffect::Passthrough {
        lemma_steps_home_next(e);
        let n = next_effect(e);
        lemma_steps_home_reach(n);
        lemma_advance_shift(e, steps_home(n));
    }
}

/// No setting is more than 26 forward steps from no effect.
proof fn lemma_steps_home_bound(e: VideoEffect)
    ensures
        steps_home(e) <= 26,
{
    match e {
        VideoEffect::Pixelate { block_size } => {
            reveal_with_fuel(doublings, 6);
        },
        VideoEffect::Compression { quality } => {
            reveal_with_fuel(halvings, 8);
        },
        _ => {},
    }
}

/// Cycling forward from any setting but a zero pixelate block comes back to
/// no effect within 26 steps.
pub proof fn lemma_every_setting_returns(e: VideoEffect)
    requires
        e != (VideoEffect::Pixelate { block_size: 0 }),
    ensures
        exists|k: nat| k <= 26 && #[trigger] advance(e, k) == VideoEffect::Passthrough,
{
    lemma_steps_home_reach(e);
    lemma_steps_home_bound(e);
}

/// A zero pixelate block is a fixed point of cycling forward: it never comes
/// back to no effect.
pub proof fn lemma_zero_block_stays(k: nat)
    ensures
        next_effect(VideoEffect::Pixelate { block_size: 0 }) == (VideoEffect::Pixelate {
            block_size: 0,
        }),
        advance(VideoEffect::Pixelate { block_size: 0 }, k) == (VideoEffect::Pixelate {
            block_size: 0,
        }),
    decreases k,
{
    if k > 0 {
        lemma_zero_block_stays((k - 1) as nat);
    }
}

/// The longest way back: from a pixelate block of 1, no effect comes back
/// after exactly 26 steps and not before.
pub proof fn lemma_longest_return()
    ensures
        advance(VideoEffect::Pixelate { block_size: 1 }, 26) == VideoEffect::Passthrough,
        forall|k: nat|
            k < 26 ==> #[trigger] advance(VideoEffect::Pixelate { block_size: 1 }, k)
                != VideoEffect::Passthrough,
{
    let e = VideoEffect::Pixelate { block_size: 1 };
    assert(advance(e, 0) == e);
    assert(advance(e, 1) == VideoEffect::Pixelate { block_size: 2 });
    assert(advance(e, 2) == VideoEffect::Pixelate { block_size: 4 });
    assert(advance(e, 3) == VideoEffect::Pixelate { block_size: 8 });
    assert(advance(e, 4) == VideoEffect::Pixelate { block_size: 16 });
    lemma_advance_values();
    lemma_cycle_returns_to_passthrough();
    assert(advance(e, 4) == advance(VideoEffect::Passthrough, 1));
    assert forall|j: nat| #[trigger] advance(e, 4 + j) == advance(VideoEffect::Passthrough, 1 + j) by {
        lemma_advance_add(e, 4, j);
        lemma_advance_add(VideoEffect::Passthrough, 1, j);
    }
    assert(advance(e, 4 + 22) == advance(VideoEffect::Passthrough, 1 + 22));
    assert forall|k: nat| k < 26 implies #[trigger] advance(e, k) != VideoEffect::Passthrough by {
        if k >= 4 {
            let j = (k - 4) as nat;
            assert(advance(e, 4 + j) == advance(VideoEffect::Passthrough, 1 + j));
            assert(advance(VideoEffect::Passthrough, (1 + j) as nat) != VideoEffect::Passthrough);
        }
    }
}

/// The RGB split takes every channel from the pixel's own row: pixel
/// `(x, y)` gets red from column `x + shift` (clamped to the last column),
/// green from itself and blue from column `x - shift` (clamped to the first
/// column), where the shift is the offset capped at a quarter of the width;
/// the result is opaque.
pub proof fn lemma_rgb_split_sources(img: Image, offset: usize, i: int)
    requires
        img.wf(),
        0 <= i < img.pixels@.len(),
    ensures
        ({
            let s = img.pixels@;
            let w = img.width as int;
            let x = i % w;
            let y = i / w;
            let shift = if offset <= w / 4 {
                offset as int
            } else {
                w / 4
            };
            let red_x = if x + shift < w {
                x + shift
            } else {
                w - 1
            };
            let blue_x = if x >= shift {
                x - shift
            } else {
                0
            };
            let p = effect_pixels(VideoEffect::RgbSplit { offset }, img)[i];
            &&& 0 <= red_x < w
            &&& 0 <= blue_x < w
            &&& p.r == s[y * w + red_x].r
            &&& p.g == s[i].g
            &&& p.b == s[y * w + blue_x].b
            &&& p.a == 255
        }),
{
    let w = img.width as int;
    let h = img.height as int;
    assert(0 < w) by (nonlinear_arith)
        requires
            0 <= w,
            0 <= h,
            0 <= i < w * h,
    ;
    lemma_position(i, w, h);
    let x = i % w;
    let y = i / w;
    assert(i == y * w + x) by (nonlinear_arith)
        requires
            0 < w,
            x == i % w,
            y == i / w,
    ;
    let shift = if offset <= w / 4 {
        offset as int
    } else {
        w / 4
    };
    assert(0 <= shift <= w);
    let red_x = if x + shift < w {
        x + shift
    } else {
        w - 1
    };
    lemma_pixel_index(w, h, red_x, y);
}

/// Inversion takes every channel to its complement (the two sum to 255) and
/// makes the pixel opaque; the frame keeps its size.
pub proof fn lemma_invert_complements(img: Image, i: int)
    requires
        img.wf(),
        0 <= i < img.pixels@.len(),
    ensures
        effect_pixels(VideoEffect::Invert, img).len() == img.pixels@.len(),
        ({
            let p = effect_pixels(VideoEffect::Invert, img)[i];
            let q = img.pixels@[i];
            &&& p.r + q.r == 255
            &&& p.g + q.g == 255
            &&& p.b + q.b == 255
            &&& p.a == 255
        }),
{
}

/// One channel under contrast: `128 + (v - 128) * factor`, rounded down and
/// clamped to `0..=255`.  Mid-grey stays put, a factor of 1 (10 tenths)
/// changes nothing, and no channel crosses mid-grey.
pub proof fn lemma_contrast_channel(v: u8, factor_tenths: u32)
    ensures
        ({
            let n = (1280 + (v - 128) * factor_tenths) / 10;
            contrast_channel(v, factor_tenths) == (if n < 0 {
                0
            } else if n > 255 {
                255
            } else {
                n
            })
        }),
        contrast_channel(128, factor_tenths) == 128,
        contrast_channel(v, 10) == v,
        v >= 128 ==> contrast_channel(v, factor_tenths) >= 128,
        v <= 128 ==> contrast_channel(v, factor_tenths) <= 128,
{
    assert(0 <= (v - 128) * factor_tenths || v < 128) by (nonlinear_arith);
    assert((v - 128) * factor_tenths <= 0 || v > 128) by (nonlinear_arith);
    assert((v - 128) * 10 == 10 * v - 1280);
}

/// Contrast keeps the order of channel values.
pub proof fn lemma_contrast_monotone(v1: u8, v2: u8, factor_tenths: u32)
    requires
        v1 <= v2,
    ensures
        contrast_channel(v1, factor_tenths) <= contrast_channel(v2, factor_tenths),
{
    assert((v1 - 128) * factor_tenths <= (v2 - 128) * factor_tenths) by (nonlinear_arith)
        requires
            v1 <= v2,
            0 <= factor_tenths,
    ;
}

/// Contrast works on each channel of a pixel alone and makes it opaque.
pub proof fn lemma_contrast_pixels(img: Image, factor_tenths: u32, i: int)
    requires
        img.wf(),
        0 <= i < img.pixels@.len(),
    ensures
        effect_pixels(VideoEffect::Contrast { factor_tenths }, img).len() == img.pixels@.len(),
        ({
            let p = effect_pixels(VideoEffect::Contrast { factor_tenths }, img)[i];
            let q = img.pixels@[i];
            &&& p.r == contrast_channel(q.r, factor_tenths)
            &&& p.g == contrast_channel(q.g, factor_tenths)
            &&& p.b == contrast_channel(q.b, factor_tenths)
            &&& p.a == 255
        }),
{
}

/// Pixelating a frame that is one opaque colour gives that frame back.
pub proof fn lemma_pixelate_uniform(img: Image, block_size: usize, c: Color)
    requires
        img.wf(),
        block_size > 0,
        c.a == 255,
        forall|j: int| 0 <= j < img.pixels@.len() ==> #[trigger] img.pixels@[j] == c,
    ensures
        effect_pixels(VideoEffect::Pixelate { block_size }, img) == img.pixels@,
{
    let s = img.pixels@;
    let w = img.width as int;
    let h = img.height as int;
    let bs = block_size as int;
    assert forall|i: int|
        0 <= i < s.len() implies #[trigger] block_average(s, w, h, bs, i % w, i / w) == c by {
        assert(0 < w) by (nonlinear_arith)
            requires
                0 <= w,
                0 <= h,
                0 <= i < w * h,
        ;
        lemma_position(i, w, h);
        let x = i % w;
        let y = i / w;
        let qx = x / bs;
        let qy = y / bs;
        let x0 = tile_origin(x, bs);
        let y0 = tile_origin(y, bs);
        assert(0 <= qx * bs <= x) by (nonlinear_arith)
            requires
                0 <= x,
                0 < bs,
                qx == x / bs,
        ;
        assert(0 <= qy * bs <= y) by (nonlinear_arith)
            requires
                0 <= y,
                0 < bs,
                qy == y / bs,
        ;
        let bw = extent(x0, bs, w);
        let bh = extent(y0, bs, h);
        assert forall|dy: int, dx: int| 0 <= dy < bh && 0 <= dx < bw implies #[trigger] s[(y0
            + dy) * w + x0 + dx] == c by {
            lemma_pixel_index(w, h, x0 + dx, y0 + dy);
        }
        assert(0 < bw * bh) by (nonlinear_arith)
            requires
                0 < bw,
                0 < bh,
        ;
        lemma_rect_sum_constant(s, w, x0, y0, bw as nat, bh as nat, 0, c);
        lemma_rect_sum_constant(s, w, x0, y0, bw as nat, bh as nat, 1, c);
        lemma_rect_sum_constant(s, w, x0, y0, bw as nat, bh as nat, 2, c);
        vstd::arithmetic::div_mod::lemma_div_multiples_vanish(channel(c, 0), bw * bh);
        vstd::arithmetic::div_mod::lemma_div_multiples_vanish(channel(c, 1), bw * bh);
        vstd::arithmetic::div_mod::lemma_div_multiples_vanish(channel(c, 2), bw * bh);
    }
    assert(effect_pixels(VideoEffect::Pixelate { block_size }, img) =~= s);
}

} // verus!
