//! Bringing the second raster of a pair to the dimensions of the first.

use crate::color::Rgb;
use crate::raster::{pixel_area, Raster, RasterView};
use image::imageops::FilterType;
use image::{DynamicImage, RgbImage};
use vstd::pervasive::unreached;
use vstd::prelude::*;

verus! {

/// The raster that nearest-neighbour resampling of `src` to `width` by `height`
/// yields. It stands for what `image` computes; nothing but its dimensions is
/// stated of it here.
pub uninterp spec fn nearest_resized(src: RasterView, width: nat, height: nat) -> RasterView;

/// Whether `src_width` columns can be resampled to `width` by `height` within
/// the address space. Resampling first builds a raster of `src_width` by
/// `height` pixels with four 32-bit samples each, then the result with three
/// 8-bit samples per pixel; neither buffer may exceed `isize::MAX` bytes.
pub open spec fn resampling_fits(src_width: nat, width: nat, height: nat) -> bool {
    &&& 16 * src_width * height <= isize::MAX
    &&& 3 * width * height <= isize::MAX
}

/// Whether the second raster can be brought to the dimensions of the first:
/// always when nothing has to be resampled, otherwise when the resampling fits.
pub open spec fn reconcilable(a: RasterView, b: RasterView) -> bool {
    ||| a.width == b.width && a.height == b.height
    ||| a.is_empty()
    ||| resampling_fits(b.width, a.width, a.height)
}

/// The second raster as it is compared against the first: itself where the
/// dimensions agree, an empty raster where the first is empty, and otherwise
/// its nearest-neighbour resampling to the dimensions of the first.
pub open spec fn reconciled(a: RasterView, b: RasterView) -> RasterView {
    if a.width == b.width && a.height == b.height {
        b
    } else if a.is_empty() {
        RasterView { width: a.width, height: a.height, pixels: Seq::empty() }
    } else {
        nearest_resized(b, a.width, a.height)
    }
}

/// Calls `image::DynamicImage::resize_exact` with `FilterType::Nearest` on the
/// raster, held as an `image::RgbImage`.
///
/// Claimed of it: the buffer of a well-formed raster is accepted by
/// `RgbImage::from_raw`, so the result is `Some`; the result has exactly the
/// dimensions asked for, with three samples per pixel; and its content depends
/// on the source raster and the target dimensions alone. The bounds keep the
/// two buffers that the resampling allocates within what a vector can hold.
#[verifier::external_body]
fn resize_exact_nearest(src: Raster, width: u32, height: u32) -> (out: Option<Raster>)
    requires
        src.wf(),
        resampling_fits(src.width as nat, width as nat, height as nat),
    ensures
        out is Some,
        out.unwrap().wf(),
        out.unwrap().width == width,
        out.unwrap().height == height,
        out.unwrap()@ == nearest_resized(src@, width as nat, height as nat),
{
    let img = RgbImage::from_raw(src.width, src.height, src.pixels)?;
    let out = DynamicImage::ImageRgb8(img).resize_exact(width, height, FilterType::Nearest);
    let rgb = out.into_rgb8();
    Some(Raster { width: rgb.width(), height: rgb.height(), pixels: rgb.into_raw() })
}

/// Whether resampling `src_width` columns to `width` by `height` fits.
pub fn can_resample(src_width: u32, width: u32, height: u32) -> (out: bool)
    ensures
        out == resampling_fits(src_width as nat, width as nat, height as nat),
{
    let limit: u128 = isize::MAX as u128;
    let staged: u128 = 16 * (pixel_area(src_width, height) as u128);
    let result: u128 = 3 * (pixel_area(width, height) as u128);
    proof {
        assert(16 * src_width * height == 16 * (src_width * height)) by (nonlinear_arith);
        assert(3 * width * height == 3 * (width * height)) by (nonlinear_arith);
    }
    staged <= limit && result <= limit
}

/// Whether `reconcile` can bring `img2` to the dimensions of `img1`.
pub fn can_reconcile(img1: &Raster, img2: &Raster) -> (out: bool)
    ensures
        out == reconcilable(img1@, img2@),
{
    (img1.width == img2.width && img1.height == img2.height) || img1.is_empty()
        || can_resample(img2.width, img1.width, img1.height)
}

/// Brings the second raster to the dimensions of the first, which is never
/// touched. With equal dimensions the second raster is handed back as it is;
/// with an empty first raster the result is empty and nothing is resampled.
pub fn reconcile(img1: &Raster, img2: Raster) -> (out: Raster)
    requires
        img1.wf(),
        img2.wf(),
        reconcilable(img1@, img2@),
    ensures
        out.wf(),
        out.width == img1.width,
        out.height == img1.height,
        out@ == reconciled(img1@, img2@),
        img1.width == img2.width && img1.height == img2.height ==> out == img2,
{
    if img1.width == img2.width && img1.height == img2.height {
        img2
    } else if img1.is_empty() {
        let out = Raster { width: img1.width, height: img1.height, pixels: Vec::new() };
        proof {
            assert(3 * img1.width * img1.height == 0) by (nonlinear_arith)
                requires
                    img1.width == 0 || img1.height == 0,
            ;
            assert(out@.pixels =~= Seq::<Rgb>::empty());
        }
        out
    } else {
        match resize_exact_nearest(img2, img1.width, img1.height) {
            Some(resized) => resized,
            None => unreached(),
        }
    }
}

} // verus!
