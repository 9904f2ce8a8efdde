//! The measurement configuration: a small, extensible set of boolean options.

use vstd::prelude::*;

verus! {

/// Options that configure a size measurement.
///
/// `capacity` selects capacity-inclusive accounting: growable buffers then
/// report their reserved-but-unused storage in addition to their live
/// content.  When it is clear, only live content is counted.
#[derive(Clone, Copy, Debug, PartialEq, Eq, Structural)]
pub struct SizeFlags {
    pub capacity: bool,
}

impl SizeFlags {
    /// The default configuration: count live content only.
    pub fn used_only() -> (r: SizeFlags)
        ensures
            r == (SizeFlags { capacity: false }),
    {
        SizeFlags { capacity: false }
    }

    /// Count reserved-but-unused storage of growable buffers as well.
    pub fn capacity_inclusive() -> (r: SizeFlags)
        ensures
            r == (SizeFlags { capacity: true }),
    {
        SizeFlags { capacity: true }
    }

    /// `self` asks for no accounting that `other` does not also ask for,
    /// so a measurement under `other` can only be larger.
    pub open spec fn included_in(self, other: SizeFlags) -> bool {
        self.capacity ==> other.capacity
    }
}

impl Default for SizeFlags {
    /// The default configuration counts live content only.
    fn default() -> (r: SizeFlags)
        ensures
            r == (SizeFlags { capacity: false }),
    {
        SizeFlags { capacity: false }
    }
}

} // verus!
