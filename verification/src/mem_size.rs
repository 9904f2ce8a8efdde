//! The size-reporting capability and the arithmetic it is stated with.
//!
//! [`MemSize::spec_mem_size`] is the mathematical byte count of a value:
//! its own in-place layout size plus every byte it owns through heap
//! allocations, with inline-stored sub-objects charged only once.  The
//! executable [`MemSize::mem_size`] returns that count whenever it fits in a
//! `usize` and saturates to `usize::MAX` otherwise, so a measurement can
//! never panic or silently wrap.

use vstd::prelude::*;
use vstd::layout::size_of;
use crate::flags::SizeFlags;

verus! {

/// `n`, cut off at the largest value a `usize` can hold.
pub open spec fn clamp_to_usize(n: int) -> int {
    if n > usize::MAX as int {
        usize::MAX as int
    } else {
        n
    }
}

/// Whether the in-place layout size of `T` itself fits in a `usize`.
///
/// This holds of every type a program can hold a value of; it is stated
/// rather than assumed because the layout size of an arbitrary type is
/// otherwise unbounded in specifications.
pub open spec fn size_of_fits<T>() -> bool {
    size_of::<T>() <= usize::MAX
}

/// The capability every measurable type implements: report, recursively,
/// the number of bytes the value occupies, including bytes owned through
/// heap allocations.
pub trait MemSize: Sized {
    /// The exact byte count of the value under `flags`, as an unbounded
    /// integer: the type's in-place layout size, plus each owned
    /// out-of-line byte, with inline-stored sub-objects counted once.
    spec fn spec_mem_size(&self, flags: SizeFlags) -> int;

    /// Whether the measurement arithmetic for this value stays within
    /// `usize`.  This holds of every value that actually fits in memory;
    /// when it fails, `mem_size` reports `usize::MAX` instead of a
    /// wrapped-around count.
    spec fn mem_size_fits(&self, flags: SizeFlags) -> bool;

    /// A value never reports fewer bytes than its own in-place layout size.
    proof fn lemma_mem_size_inline_bound(&self, flags: SizeFlags)
        ensures
            self.spec_mem_size(flags) >= size_of::<Self>(),
    ;

    /// When the measurement arithmetic fits, the byte count fits in `usize`.
    proof fn lemma_mem_size_fits_bound(&self, flags: SizeFlags)
        requires
            self.mem_size_fits(flags),
        ensures
            self.spec_mem_size(flags) <= usize::MAX as int,
    ;

    /// Asking for more accounting never shrinks the count: if `f2` selects
    /// every option `f1` selects, the measurement under `f2` is at least
    /// the measurement under `f1`.
    proof fn lemma_mem_size_monotonic(&self, f1: SizeFlags, f2: SizeFlags)
        requires
            f1.included_in(f2),
        ensures
            self.spec_mem_size(f1) <= self.spec_mem_size(f2),
    ;

    /// Report the byte count of the value under `flags`: exactly
    /// `spec_mem_size` whenever that fits in a `usize`, and `usize::MAX`
    /// otherwise.  The result is determined by the value and the flags
    /// alone.
    fn mem_size(&self, flags: SizeFlags) -> (r: usize)
        ensures
            self.mem_size_fits(flags) ==> r as int == self.spec_mem_size(flags),
            !self.mem_size_fits(flags) ==> r == usize::MAX,
    ;
}

/// The value `mem_size` returns: the exact count when the arithmetic fits
/// in a `usize`, and the saturated count `usize::MAX` otherwise.
pub open spec fn measured<T: MemSize>(v: T, flags: SizeFlags) -> int {
    if v.mem_size_fits(flags) {
        v.spec_mem_size(flags)
    } else {
        usize::MAX as int
    }
}

/// The sum of the exact byte counts of a sequence of values.
pub open spec fn sum_spec_mem_size<T: MemSize>(s: Seq<T>, flags: SizeFlags) -> int
    decreases s.len(),
{
    if s.len() == 0 {
        0
    } else {
        sum_spec_mem_size(s.drop_last(), flags) + s.last().spec_mem_size(flags)
    }
}

/// The sum of the reported byte counts of a sequence of values.
pub open spec fn sum_measured<T: MemSize>(s: Seq<T>, flags: SizeFlags) -> int
    decreases s.len(),
{
    if s.len() == 0 {
        0
    } else {
        sum_measured(s.drop_last(), flags) + measured(s.last(), flags)
    }
}

/// Whether the measurement arithmetic of every value in `s` fits.
pub open spec fn all_fit<T: MemSize>(s: Seq<T>, flags: SizeFlags) -> bool {
    forall|i: int| 0 <= i < s.len() ==> (#[trigger] s[i]).mem_size_fits(flags)
}

/// A reported count is never negative.
pub proof fn lemma_measured_nonneg<T: MemSize>(v: T, flags: SizeFlags)
    ensures
        measured(v, flags) >= 0,
{
    if v.mem_size_fits(flags) {
        v.lemma_mem_size_inline_bound(flags);
    }
}

/// A sequence of values reports at least its length times the element
/// type's in-place layout size.
pub proof fn lemma_sum_spec_lower_bound<T: MemSize>(s: Seq<T>, flags: SizeFlags)
    ensures
        sum_spec_mem_size(s, flags) >= s.len() * size_of::<T>(),
    decreases s.len(),
{
    if s.len() == 0 {
    } else {
        lemma_sum_spec_lower_bound(s.drop_last(), flags);
        s.last().lemma_mem_size_inline_bound(flags);
        assert((s.len() - 1) * size_of::<T>() + size_of::<T>() == s.len() * size_of::<T>())
            by (nonlinear_arith);
    }
}

/// When every element's arithmetic fits, the reported sum is the exact sum.
pub proof fn lemma_sum_measured_eq_spec<T: MemSize>(s: Seq<T>, flags: SizeFlags)
    requires
        all_fit(s, flags),
    ensures
        sum_measured(s, flags) == sum_spec_mem_size(s, flags),
    decreases s.len(),
{
    if s.len() == 0 {
    } else {
        assert(forall|i: int|
            0 <= i < s.drop_last().len() ==> (#[trigger] s.drop_last()[i]).mem_size_fits(flags))
            by {
            assert(forall|i: int|
                0 <= i < s.drop_last().len() ==> s.drop_last()[i] == s[i]);
        };
        lemma_sum_measured_eq_spec(s.drop_last(), flags);
        assert(s.last() == s[s.len() - 1]);
    }
}

/// Each reported count is at least the element type's in-place layout
/// size, so a sequence reports at least its length times that size.
pub proof fn lemma_sum_measured_lower_bound<T: MemSize>(s: Seq<T>, flags: SizeFlags)
    requires
        size_of_fits::<T>(),
    ensures
        sum_measured(s, flags) >= s.len() * size_of::<T>(),
    decreases s.len(),
{
    if s.len() == 0 {
    } else {
        lemma_sum_measured_lower_bound(s.drop_last(), flags);
        if s.last().mem_size_fits(flags) {
            s.last().lemma_mem_size_inline_bound(flags);
        }
        assert((s.len() - 1) * size_of::<T>() + size_of::<T>() == s.len() * size_of::<T>())
            by (nonlinear_arith);
    }
}

/// When some element's arithmetic does not fit, the reported sum already
/// saturates: it exceeds `usize::MAX` even after subtracting one inline
/// slot per remaining element.
pub proof fn lemma_sum_measured_overflow<T: MemSize>(s: Seq<T>, flags: SizeFlags)
    requires
        !all_fit(s, flags),
        size_of_fits::<T>(),
    ensures
        sum_measured(s, flags) >= usize::MAX as int + (s.len() - 1) * size_of::<T>(),
    decreases s.len(),
{
    let j = choose|i: int| 0 <= i < s.len() && !(#[trigger] s[i]).mem_size_fits(flags);
    if j == s.len() - 1 {
        lemma_sum_measured_lower_bound(s.drop_last(), flags);
        assert(s.last() == s[s.len() - 1]);
    } else {
        assert(s.drop_last()[j] == s[j]);
        lemma_sum_measured_overflow(s.drop_last(), flags);
        lemma_measured_nonneg(s.last(), flags);
        if s.last().mem_size_fits(flags) {
            s.last().lemma_mem_size_inline_bound(flags);
        }
        assert((s.len() - 2) * size_of::<T>() + size_of::<T>() == (s.len() - 1) * size_of::<T>())
            by (nonlinear_arith);
    }
}

/// Extending the measured prefix of a sequence by one element adds that
/// element's reported count.
pub proof fn lemma_sum_measured_take_step<T: MemSize>(s: Seq<T>, flags: SizeFlags, k: int)
    requires
        0 <= k < s.len(),
    ensures
        sum_measured(s.take(k + 1), flags) == sum_measured(s.take(k), flags) + measured(
            s[k],
            flags,
        ),
{
    assert(s.take(k + 1).drop_last() =~= s.take(k));
    assert(s.take(k + 1).last() == s[k]);
}

/// The exact sum only grows when the flags ask for more accounting.
pub proof fn lemma_sum_spec_monotonic<T: MemSize>(s: Seq<T>, f1: SizeFlags, f2: SizeFlags)
    requires
        f1.included_in(f2),
    ensures
        sum_spec_mem_size(s, f1) <= sum_spec_mem_size(s, f2),
    decreases s.len(),
{
    if s.len() == 0 {
    } else {
        lemma_sum_spec_monotonic(s.drop_last(), f1, f2);
        s.last().lemma_mem_size_monotonic(f1, f2);
    }
}

} // verus!
