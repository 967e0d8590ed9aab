//! Colours and the tolerance under which two colours count as the same.

use vstd::prelude::*;

verus! {

/// One pixel: red, green and blue, eight bits each.
#[derive(Clone, Copy, Debug, PartialEq, Eq, Structural)]
pub struct Rgb {
    pub r: u8,
    pub g: u8,
    pub b: u8,
}

/// Largest combined channel distance at which two pixels still count as the same.
pub const TOLERANCE: u16 = 30;

/// Absolute difference of two channel values.
pub open spec fn channel_gap(x: u8, y: u8) -> int {
    if x >= y {
        x - y
    } else {
        y - x
    }
}

/// Sum of the absolute differences of the three channels.
pub open spec fn color_distance(p: Rgb, q: Rgb) -> int {
    channel_gap(p.r, q.r) + channel_gap(p.g, q.g) + channel_gap(p.b, q.b)
}

/// Two pixels differ when their distance strictly exceeds the tolerance.
pub open spec fn differs(p: Rgb, q: Rgb) -> bool {
    color_distance(p, q) > TOLERANCE
}

/// Absolute difference of two channel values, widened so that sums cannot overflow.
pub fn channel_delta(x: u8, y: u8) -> (d: u16)
    ensures
        d == channel_gap(x, y),
        d <= 255,
{
    if x >= y {
        (x - y) as u16
    } else {
        (y - x) as u16
    }
}

/// Combined channel distance of two pixels.
pub fn pixel_distance(p: Rgb, q: Rgb) -> (d: u16)
    ensures
        d == color_distance(p, q),
        d <= 765,
{
    channel_delta(p.r, q.r) + channel_delta(p.g, q.g) + channel_delta(p.b, q.b)
}

/// Whether two pixels are classified as different.
pub fn pixel_differs(p: Rgb, q: Rgb) -> (out: bool)
    ensures
        out == differs(p, q),
{
    pixel_distance(p, q) > TOLERANCE
}

/// The distance is symmetric, never negative, and zero exactly between equal pixels.
pub proof fn lemma_distance_metric(p: Rgb, q: Rgb)
    ensures
        0 <= color_distance(p, q) <= 765,
        color_distance(p, q) == color_distance(q, p),
        color_distance(p, q) == 0 <==> p == q,
{
}

/// A pixel never differs from itself.
pub proof fn lemma_same_pixel_within_tolerance(p: Rgb)
    ensures
        !differs(p, p),
{
}

/// The tolerance is inclusive: a distance of exactly 30 is still the same pixel,
/// a distance of 31 is a different one.
pub proof fn lemma_tolerance_boundary(p: Rgb, q: Rgb)
    ensures
        color_distance(p, q) == 30 ==> !differs(p, q),
        color_distance(p, q) == 31 ==> differs(p, q),
        differs(p, q) <==> color_distance(p, q) >= 31,
{
}

} // verus!
