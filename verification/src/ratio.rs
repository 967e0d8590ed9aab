//! The result of a comparison, kept as an exact fraction.

use vstd::prelude::*;

verus! {

/// Share of compared pixel positions that were classified as different:
/// `differing` out of `total`. With nothing compared (`total == 0`) the share
/// is defined to be zero.
#[derive(Clone, Copy, Debug, PartialEq, Eq, Structural)]
pub struct DiffRatio {
    pub differing: u64,
    pub total: u64,
}

impl DiffRatio {
    /// No more positions differ than were compared, so the share lies between 0 and 1.
    pub open spec fn wf(&self) -> bool {
        self.differing <= self.total
    }

    /// The share is zero: nothing differs (in particular, when nothing was compared).
    pub open spec fn spec_is_zero(&self) -> bool {
        self.differing == 0
    }

    /// The share is one: something was compared and all of it differs.
    pub open spec fn spec_is_one(&self) -> bool {
        self.total > 0 && self.differing == self.total
    }

    /// The result of comparing nothing.
    pub fn nothing_compared() -> (out: DiffRatio)
        ensures
            out.differing == 0,
            out.total == 0,
            out.wf(),
    {
        DiffRatio { differing: 0, total: 0 }
    }

    #[verifier::when_used_as_spec(spec_is_zero)]
    pub fn is_zero(&self) -> (out: bool)
        ensures
            out == self.spec_is_zero(),
    {
        self.differing == 0
    }

    #[verifier::when_used_as_spec(spec_is_one)]
    pub fn is_one(&self) -> (out: bool)
        ensures
            out == self.spec_is_one(),
    {
        self.total > 0 && self.differing == self.total
    }
}

} // verus!
