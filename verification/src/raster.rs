//! Decoded images: dimensions and a dense, row-major array of RGB pixels.

use crate::color::Rgb;
use vstd::prelude::*;

verus! {

/// A decoded image. `pixels` holds three samples per pixel (red, green, blue),
/// row by row, so pixel `i` occupies the samples `3 * i ..= 3 * i + 2`.
#[derive(Clone, Debug)]
pub struct Raster {
    pub width: u32,
    pub height: u32,
    pub pixels: Vec<u8>,
}

/// What a raster is mathematically: its dimensions and its pixels in raster-scan order.
pub struct RasterView {
    pub width: nat,
    pub height: nat,
    pub pixels: Seq<Rgb>,
}

impl RasterView {
    /// There is exactly one pixel per position.
    pub open spec fn wf(self) -> bool {
        self.pixels.len() == self.width * self.height
    }

    /// A raster with no pixel positions.
    pub open spec fn is_empty(self) -> bool {
        self.width == 0 || self.height == 0
    }
}

/// Groups a flat run of samples into pixels, three samples each.
pub open spec fn rgb_pixels(samples: Seq<u8>) -> Seq<Rgb> {
    Seq::new(
        (samples.len() / 3) as nat,
        |i: int| Rgb { r: samples[3 * i], g: samples[3 * i + 1], b: samples[3 * i + 2] },
    )
}

/// Number of pixel positions of a `width` by `height` raster.
pub fn pixel_area(width: u32, height: u32) -> (n: u64)
    ensures
        n == width * height,
{
    let w: u64 = width as u64;
    let h: u64 = height as u64;
    assert(w * h <= u64::MAX) by (nonlinear_arith)
        requires
            w <= u32::MAX,
            h <= u32::MAX,
    ;
    w * h
}

impl View for Raster {
    type V = RasterView;

    open spec fn view(&self) -> RasterView {
        RasterView {
            width: self.width as nat,
            height: self.height as nat,
            pixels: rgb_pixels(self.pixels@),
        }
    }
}

impl Raster {
    /// The sample buffer holds exactly three samples for each of `width * height` pixels.
    pub open spec fn wf(&self) -> bool {
        self.pixels@.len() == 3 * self.width * self.height
    }

    /// A well-formed raster has a well-formed view.
    pub proof fn lemma_view_wf(&self)
        requires
            self.wf(),
        ensures
            self@.wf(),
            self@.pixels.len() == self.width * self.height,
            self@.is_empty() <==> self.pixels@.len() == 0,
    {
        let n = self.width * self.height;
        assert(3 * self.width * self.height == 3 * n) by (nonlinear_arith)
            requires
                n == self.width * self.height,
        ;
        assert(n == 0 <==> (self.width == 0 || self.height == 0)) by (nonlinear_arith)
            requires
                n == self.width * self.height,
                self.width >= 0,
                self.height >= 0,
        ;
    }

    /// Builds a raster from its dimensions and samples; `None` unless the buffer
    /// holds exactly three samples per pixel.
    pub fn new(width: u32, height: u32, pixels: Vec<u8>) -> (out: Option<Raster>)
        ensures
            out is Some <==> pixels@.len() == 3 * width * height,
            out matches Some(r) ==> r.width == width && r.height == height && r.pixels == pixels
                && r.wf(),
    {
        let area: u64 = pixel_area(width, height);
        let expected: u128 = 3 * (area as u128);
        assert(expected == 3 * width * height) by (nonlinear_arith)
            requires
                expected == 3 * (width * height),
        ;
        if pixels.len() as u128 == expected {
            Some(Raster { width, height, pixels })
        } else {
            None
        }
    }

    /// Whether the raster has no pixel positions.
    pub fn is_empty(&self) -> (out: bool)
        ensures
            out == self@.is_empty(),
    {
        self.width == 0 || self.height == 0
    }

    /// Number of pixel positions.
    pub fn pixel_count(&self) -> (n: u64)
        ensures
            n == self.width * self.height,
    {
        pixel_area(self.width, self.height)
    }

    /// The pixel at a raster-scan position.
    pub fn pixel_at(&self, index: usize) -> (p: Rgb)
        requires
            self.wf(),
            index < self.width * self.height,
        ensures
            p == self@.pixels[index as int],
    {
        proof {
            self.lemma_view_wf();
            assert(3 * self.width * self.height == 3 * (self.width * self.height))
                by (nonlinear_arith);
            assert(3 * index + 2 < self.pixels.len());
        }
        let base: usize = 3 * index;
        Rgb { r: self.pixels[base], g: self.pixels[base + 1], b: self.pixels[base + 2] }
    }
}

} // verus!
