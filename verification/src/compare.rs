//! The comparison as a whole: decode both images, reconcile their dimensions,
//! count the differing pixels.

use crate::color::{differs, Rgb};
use crate::decode::{load_image, DecodeError};
use crate::diff::{
    compute_diff, differing_count, differing_positions, lemma_differing_below_bounded,
};
use crate::raster::{Raster, RasterView};
use crate::ratio::DiffRatio;
use crate::reconcile::{can_reconcile, reconcilable, reconcile, reconciled};
use vstd::prelude::*;

verus! {

/// Why a comparison produced no ratio.
#[derive(Clone, Debug, PartialEq, Eq)]
pub enum DiffError {
    /// One of the two buffers is not a decodable image.
    Decode(DecodeError),
    /// Both images decode, but the second cannot be resampled to the
    /// dimensions of the first within the address space of this machine.
    TooLarge,
}

/// Whether two rasters can be compared: always when one of them is empty,
/// otherwise when the second can be reconciled with the first.
pub open spec fn comparable(a: RasterView, b: RasterView) -> bool {
    a.is_empty() || b.is_empty() || reconcilable(a, b)
}

/// How many pixel positions a comparison looks at: none when either raster is
/// empty, otherwise every position of the first raster.
pub open spec fn compared_total(a: RasterView, b: RasterView) -> nat {
    if a.is_empty() || b.is_empty() {
        0
    } else {
        a.width * a.height
    }
}

/// How many of the compared positions differ between the first raster and the
/// reconciled second one.
pub open spec fn compared_differing(a: RasterView, b: RasterView) -> nat {
    if a.is_empty() || b.is_empty() {
        0
    } else {
        differing_count(a.pixels, reconciled(a, b).pixels)
    }
}

/// Compares two decoded rasters. The first one sets the dimensions; the second
/// is resampled to them where they differ. An empty raster on either side
/// gives the ratio of nothing compared. `None` exactly when the resampling
/// that would be needed does not fit into memory.
pub fn compare_rasters(img1: &Raster, img2: Raster) -> (out: Option<DiffRatio>)
    requires
        img1.wf(),
        img2.wf(),
    ensures
        out is Some <==> comparable(img1@, img2@),
        out matches Some(ratio) ==> {
            &&& ratio.total == compared_total(img1@, img2@)
            &&& ratio.differing == compared_differing(img1@, img2@)
            &&& ratio.wf()
        },
{
    if img1.is_empty() || img2.is_empty() {
        Some(DiffRatio::nothing_compared())
    } else if can_reconcile(img1, &img2) {
        let adjusted = reconcile(img1, img2);
        Some(compute_diff(img1, &adjusted))
    } else {
        None
    }
}

/// What the comparison returns for each pair of decoding outcomes: the failure
/// of the first image if it failed, else that of the second, else the ratio of
/// the two rasters, or `TooLarge` where they cannot be compared.
pub open spec fn outcome_of(
    first: Result<Raster, DecodeError>,
    second: Result<Raster, DecodeError>,
) -> Result<DiffRatio, DiffError> {
    match (first, second) {
        (Err(e), _) => Err(DiffError::Decode(e)),
        (Ok(_), Err(e)) => Err(DiffError::Decode(e)),
        (Ok(img1), Ok(img2)) => if comparable(img1@, img2@) {
            Ok(
                DiffRatio {
                    differing: compared_differing(img1@, img2@) as u64,
                    total: compared_total(img1@, img2@) as u64,
                },
            )
        } else {
            Err(DiffError::TooLarge)
        },
    }
}

/// Finishes a comparison from the two decoding outcomes. A decoding failure
/// ends it before any pixel is looked at, the first image's failure taking
/// precedence.
pub fn compare_decoded(
    first: Result<Raster, DecodeError>,
    second: Result<Raster, DecodeError>,
) -> (out: Result<DiffRatio, DiffError>)
    requires
        first matches Ok(img1) ==> img1.wf(),
        second matches Ok(img2) ==> img2.wf(),
    ensures
        out == outcome_of(first, second),
        out matches Ok(ratio) ==> ratio.wf(),
{
    match first {
        Err(e) => Err(DiffError::Decode(e)),
        Ok(img1) => match second {
            Err(e) => Err(DiffError::Decode(e)),
            Ok(img2) => match compare_rasters(&img1, img2) {
                Some(ratio) => Ok(ratio),
                None => Err(DiffError::TooLarge),
            },
        },
    }
}

/// Compares two encoded images and reports which share of the pixel positions
/// of the first differs from the second beyond the tolerance.
///
/// The first buffer is decoded first, and its failure is the one reported when
/// both fail; the second buffer is not looked at in that case. What the
/// decoder makes of a buffer is its own decision, so all that is promised of
/// every outcome is that a ratio, when there is one, lies between 0 and 1;
/// `compare_decoded` says what is returned for each pair of decoding outcomes.
pub fn calculate_pixel_diff(img1_data: &[u8], img2_data: &[u8]) -> (out: Result<
    DiffRatio,
    DiffError,
>)
    ensures
        out matches Ok(ratio) ==> ratio.wf(),
{
    match load_image(img1_data) {
        Err(e) => Err(DiffError::Decode(e)),
        Ok(img1) => compare_decoded(Ok(img1), load_image(img2_data)),
    }
}

/// Two pixel sequences that agree everywhere differ nowhere.
pub proof fn lemma_equal_pixels_differ_nowhere(pixels: Seq<Rgb>)
    ensures
        differing_positions(pixels, pixels) == Set::<int>::empty(),
        differing_count(pixels, pixels) == 0,
{
    assert(differing_positions(pixels, pixels) =~= Set::<int>::empty());
}

/// Comparing a raster against itself is always possible and finds no
/// differing position, whatever its size.
pub proof fn lemma_identity(a: RasterView)
    ensures
        comparable(a, a),
        reconciled(a, a) == a,
        compared_differing(a, a) == 0,
{
    lemma_equal_pixels_differ_nowhere(a.pixels);
}

/// No more positions differ than are compared: the ratio lies between 0 and 1.
pub proof fn lemma_range(a: RasterView, b: RasterView)
    requires
        a.wf(),
    ensures
        compared_differing(a, b) <= compared_total(a, b),
{
    lemma_differing_below_bounded(a.pixels, reconciled(a, b).pixels, a.pixels.len() as int);
}

/// When either raster is empty the comparison is possible, looks at nothing
/// and finds nothing, whatever the other raster holds.
pub proof fn lemma_empty(a: RasterView, b: RasterView)
    requires
        a.is_empty() || b.is_empty(),
    ensures
        comparable(a, b),
        compared_total(a, b) == 0,
        compared_differing(a, b) == 0,
{
}

/// When the pixels at exactly the positions in `altered` differ beyond the
/// tolerance and every other pixel is untouched, the number of differing
/// positions is the size of `altered`.
pub proof fn lemma_altered_positions(a: Seq<Rgb>, b: Seq<Rgb>, altered: Set<int>)
    requires
        a.len() == b.len(),
        forall|i: int| altered.contains(i) ==> 0 <= i < a.len() && differs(a[i], b[i]),
        forall|i: int| 0 <= i < a.len() && !altered.contains(i) ==> a[i] == b[i],
    ensures
        differing_positions(a, b) == altered,
        differing_count(a, b) == altered.len(),
{
    assert(differing_positions(a, b) =~= altered) by {
        assert forall|i: int| differing_positions(a, b).contains(i) <==> altered.contains(i) by {
            if 0 <= i < a.len() && !altered.contains(i) {
                assert(a[i] == b[i]);
                assert(!differs(a[i], b[i]));
            }
        }
    }
}

/// For two rasters of the same non-empty dimensions, of which the second is a
/// copy of the first altered beyond the tolerance at exactly the positions in
/// `altered`, the comparison reports `altered.len()` out of `width * height`.
pub proof fn lemma_altered_copy(a: RasterView, b: RasterView, altered: Set<int>)
    requires
        a.wf(),
        b.wf(),
        a.width == b.width,
        a.height == b.height,
        forall|i: int| altered.contains(i) ==> 0 <= i < a.pixels.len() && differs(
            a.pixels[i],
            b.pixels[i],
        ),
        forall|i: int| 0 <= i < a.pixels.len() && !altered.contains(i) ==> a.pixels[i] == b.pixels[i],
    ensures
        comparable(a, b),
        compared_differing(a, b) == altered.len(),
        !a.is_empty() ==> compared_total(a, b) == a.width * a.height,
{
    lemma_altered_positions(a.pixels, b.pixels, altered);
    if a.is_empty() {
        assert(a.width * a.height == 0) by (nonlinear_arith)
            requires
                a.width == 0 || a.height == 0,
        ;
        assert(altered =~= Set::<int>::empty());
    }
}

} // verus!
