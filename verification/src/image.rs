//! Plain RGBA frames that the effects work on.
//!
//! A frame is `width * height` pixels in row-major order; pixel `(x, y)`
//! stands at index `y * width + x`.  Channels hold the stored values as they
//! come from the decoder (premultiplied, as the display keeps them).
use vstd::prelude::*;

verus! {

/// One pixel: red, green, blue and alpha channels.
#[derive(Clone, Copy, Debug, PartialEq, Eq, Structural)]
pub struct Color {
    pub r: u8,
    pub g: u8,
    pub b: u8,
    pub a: u8,
}

/// The opaque colour with the given channels.
pub open spec fn opaque(r: u8, g: u8, b: u8) -> Color {
    Color { r, g, b, a: 255 }
}

impl Color {
    /// An opaque colour from its three channels (alpha 255).
    pub fn from_rgb(r: u8, g: u8, b: u8) -> (c: Color)
        ensures
            c == opaque(r, g, b),
    {
        Color { r, g, b, a: 255 }
    }

    /// Opaque black.
    pub fn black() -> (c: Color)
        ensures
            c == opaque(0, 0, 0),
    {
        Color { r: 0, g: 0, b: 0, a: 255 }
    }
}

/// Channel `ch` of a colour: 0 is red, 1 is green, anything else blue.
pub open spec fn channel(c: Color, ch: int) -> int {
    if ch == 0 {
        c.r as int
    } else if ch == 1 {
        c.g as int
    } else {
        c.b as int
    }
}

/// A frame of `width * height` pixels, row by row.
#[derive(Debug)]
pub struct Image {
    pub width: usize,
    pub height: usize,
    pub pixels: Vec<Color>,
}

impl Image {
    /// The pixel buffer holds exactly one colour per position.
    pub open spec fn wf(&self) -> bool {
        self.pixels@.len() == self.width * self.height
    }

    /// A `width * height` frame filled with one colour.
    pub fn filled(width: usize, height: usize, color: Color) -> (img: Image)
        requires
            width * height <= usize::MAX,
        ensures
            img.wf(),
            img.width == width,
            img.height == height,
            forall|i: int| 0 <= i < img.pixels@.len() ==> img.pixels@[i] == color,
    {
        let n: usize = width * height;
        let mut pixels: Vec<Color> = Vec::new();
        let mut i: usize = 0;
        while i < n
            invariant
                i <= n,
                pixels@.len() == i,
                forall|k: int| 0 <= k < i ==> pixels@[k] == color,
            decreases n - i,
        {
            pixels.push(color);
            i = i + 1;
        }
        Image { width, height, pixels }
    }

    /// A pixel-for-pixel copy of the frame.
    pub fn duplicate(&self) -> (img: Image)
        ensures
            img.width == self.width,
            img.height == self.height,
            img.pixels@ == self.pixels@,
    {
        let mut pixels: Vec<Color> = Vec::new();
        let n: usize = self.pixels.len();
        let mut i: usize = 0;
        while i < n
            invariant
                i <= n,
                n == self.pixels@.len(),
                pixels@ == self.pixels@.take(i as int),
            decreases n - i,
        {
            pixels.push(self.pixels[i]);
            assert(self.pixels@.take(i + 1) == self.pixels@.take(i as int).push(self.pixels@[i as int]));
            i = i + 1;
        }
        assert(self.pixels@.take(n as int) == self.pixels@);
        Image { width: self.width, height: self.height, pixels }
    }
}

} // verus!
