//! Counting the pixel positions at which two rasters of equal dimensions differ.

use crate::color::{differs, pixel_differs, Rgb};
use crate::raster::Raster;
use crate::ratio::DiffRatio;
use vstd::prelude::*;
use vstd::set_lib::{lemma_int_range, lemma_len_subset, set_int_range};

verus! {

/// The positions below `n` at which the two pixel sequences differ.
pub open spec fn differing_below(a: Seq<Rgb>, b: Seq<Rgb>, n: int) -> Set<int> {
    Set::new(|i: int| 0 <= i < n && differs(a[i], b[i]))
}

/// The positions at which two pixel sequences of equal length differ.
pub open spec fn differing_positions(a: Seq<Rgb>, b: Seq<Rgb>) -> Set<int>
    recommends
        a.len() == b.len(),
{
    differing_below(a, b, a.len() as int)
}

/// How many positions of two pixel sequences of equal length differ.
pub open spec fn differing_count(a: Seq<Rgb>, b: Seq<Rgb>) -> nat
    recommends
        a.len() == b.len(),
{
    differing_positions(a, b).len()
}

/// The differing positions below `n` are finitely many, at most `n`.
pub proof fn lemma_differing_below_bounded(a: Seq<Rgb>, b: Seq<Rgb>, n: int)
    requires
        0 <= n,
    ensures
        differing_below(a, b, n).finite(),
        differing_below(a, b, n).len() <= n,
{
    lemma_int_range(0, n);
    assert(differing_below(a, b, n).subset_of(set_int_range(0, n)));
    lemma_len_subset(differing_below(a, b, n), set_int_range(0, n));
}

/// Extending the range by one position adds that position exactly when the
/// pixels there differ.
pub proof fn lemma_differing_below_step(a: Seq<Rgb>, b: Seq<Rgb>, n: int)
    requires
        0 <= n,
    ensures
        differs(a[n], b[n]) ==> differing_below(a, b, n + 1) == differing_below(a, b, n).insert(n)
            && differing_below(a, b, n + 1).len() == differing_below(a, b, n).len() + 1,
        !differs(a[n], b[n]) ==> differing_below(a, b, n + 1) == differing_below(a, b, n),
{
    lemma_differing_below_bounded(a, b, n);
    if differs(a[n], b[n]) {
        assert(differing_below(a, b, n + 1) =~= differing_below(a, b, n).insert(n));
        assert(!differing_below(a, b, n).contains(n));
    } else {
        assert(differing_below(a, b, n + 1) =~= differing_below(a, b, n));
    }
}

/// Walks two rasters of equal dimensions in raster-scan order and reports how
/// many of their pixel positions differ, out of how many there are.
pub fn compute_diff(img1: &Raster, img2: &Raster) -> (ratio: DiffRatio)
    requires
        img1.wf(),
        img2.wf(),
        img1.width == img2.width,
        img1.height == img2.height,
    ensures
        ratio.total == img1.width * img1.height,
        ratio.differing == differing_count(img1@.pixels, img2@.pixels),
        ratio.wf(),
{
    let total: u64 = img1.pixel_count();
    let samples: usize = img1.pixels.len();
    proof {
        img1.lemma_view_wf();
        img2.lemma_view_wf();
        assert(3 * img1.width * img1.height == 3 * (img1.width * img1.height))
            by (nonlinear_arith);
    }
    let positions: usize = samples / 3;
    let ghost a = img1@.pixels;
    let ghost b = img2@.pixels;
    let mut differing: u64 = 0;
    let mut i: usize = 0;
    proof {
        assert(differing_below(a, b, 0) =~= Set::<int>::empty());
    }
    while i < positions
        invariant
            img1.wf(),
            img2.wf(),
            img1.width == img2.width,
            img1.height == img2.height,
            a == img1@.pixels,
            b == img2@.pixels,
            positions == img1.width * img1.height,
            positions == a.len(),
            positions == total,
            i <= positions,
            differing == differing_below(a, b, i as int).len(),
            differing <= i,
        decreases positions - i,
    {
        let p: Rgb = img1.pixel_at(i);
        let q: Rgb = img2.pixel_at(i);
        proof {
            lemma_differing_below_step(a, b, i as int);
        }
        if pixel_differs(p, q) {
            differing = differing + 1;
        }
        i = i + 1;
    }
    DiffRatio { differing, total }
}

} // verus!
