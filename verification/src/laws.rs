//! General laws of the measurement algebra, stated over the
//! specification-level byte counts.
//!
//! The per-shape laws that every implementation must prove — the count is
//! never below the type's own layout size, and asking for more accounting
//! never shrinks it — are the proof obligations declared on
//! [`MemSize`](crate::mem_size::MemSize) itself.  The laws here relate
//! the composition rules to each other.

use vstd::prelude::*;
use vstd::layout::size_of;
use crate::buffers::DynBuf;
use crate::flags::SizeFlags;
use crate::mem_size::MemSize;
use crate::mem_size::sum_spec_mem_size;

verus! {

/// An absent optional reports exactly the wrapper's own layout size,
/// whatever the payload type, its owned storage, and the flags.
pub proof fn lemma_absent_optional<T: MemSize>(flags: SizeFlags)
    ensures
        (None::<T>).spec_mem_size(flags) == size_of::<Option<T>>(),
{
}

/// A present optional reports the wrapper's own layout size plus exactly
/// the payload's bytes beyond the payload type's plain inline size.
pub proof fn lemma_present_optional<T: MemSize>(v: T, flags: SizeFlags)
    ensures
        (Some(v)).spec_mem_size(flags) == size_of::<Option<T>>() + v.spec_mem_size(flags)
            - size_of::<T>(),
{
}

/// When every element of a sequence reports exactly the element type's
/// inline layout size, the sum is the length times that size.
proof fn lemma_sum_spec_of_inline_only<T: MemSize>(s: Seq<T>, flags: SizeFlags)
    requires
        forall|i: int| 0 <= i < s.len() ==> (#[trigger] s[i]).spec_mem_size(flags) == size_of::<
            T,
        >(),
    ensures
        sum_spec_mem_size(s, flags) == s.len() * size_of::<T>(),
    decreases s.len(),
{
    if s.len() == 0 {
    } else {
        assert(forall|i: int| 0 <= i < s.drop_last().len() ==> s.drop_last()[i] == s[i]);
        lemma_sum_spec_of_inline_only(s.drop_last(), flags);
        assert(s.last() == s[s.len() - 1]);
        assert((s.len() - 1) * size_of::<T>() + size_of::<T>() == s.len() * size_of::<T>())
            by (nonlinear_arith);
    }
}

/// A fixed-size aggregate whose elements own no indirect storage reports
/// exactly the aggregate's own layout size: there is no per-element
/// overhead.
pub proof fn lemma_aggregate_of_inline_only<T: MemSize, const N: usize>(
    arr: [T; N],
    flags: SizeFlags,
)
    requires
        forall|i: int| 0 <= i < arr@.len() ==> (#[trigger] arr@[i]).spec_mem_size(flags)
            == size_of::<T>(),
    ensures
        arr.spec_mem_size(flags) == size_of::<[T; N]>(),
{
    lemma_sum_spec_of_inline_only(arr@, flags);
}

/// An owned indirection reports its handle plus the full recursive size
/// of the pointee, which lives entirely out of line.
pub proof fn lemma_indirection<T: MemSize>(b: Box<T>, flags: SizeFlags)
    ensures
        b.spec_mem_size(flags) == size_of::<Box<T>>() + (*b).spec_mem_size(flags),
{
}

/// Measuring the same unmutated value twice under the same flags yields
/// identical results: the reported count is a function of the value and
/// the flags alone.
pub proof fn lemma_mem_size_deterministic<T: MemSize>(
    v: &T,
    flags: SizeFlags,
    r1: usize,
    r2: usize,
)
    requires
        call_ensures(T::mem_size, (v, flags), r1),
        call_ensures(T::mem_size, (v, flags), r2),
    ensures
        r1 == r2,
{
}

/// An empty dynamic buffer with no reserved slack reports its header
/// alone: no element contributes.
pub proof fn lemma_empty_dynamic_buffer<T: MemSize>(b: &DynBuf<T>, flags: SizeFlags)
    requires
        b.items().len() == 0,
        b.spec_spare() == 0,
    ensures
        b.spec_mem_size(flags) == size_of::<DynBuf<T>>(),
{
    assert(0 * size_of::<T>() == 0) by (nonlinear_arith);
}

/// When every element reports the same count under two flag settings,
/// so does the sum.
proof fn lemma_sum_spec_pointwise_equal<T: MemSize>(s: Seq<T>, f1: SizeFlags, f2: SizeFlags)
    requires
        forall|i: int| 0 <= i < s.len() ==> (#[trigger] s[i]).spec_mem_size(f1) == s[i].spec_mem_size(
            f2,
        ),
    ensures
        sum_spec_mem_size(s, f1) == sum_spec_mem_size(s, f2),
    decreases s.len(),
{
    if s.len() == 0 {
    } else {
        assert(forall|i: int| 0 <= i < s.drop_last().len() ==> s.drop_last()[i] == s[i]);
        lemma_sum_spec_pointwise_equal(s.drop_last(), f1, f2);
        assert(s.last() == s[s.len() - 1]);
    }
}

/// A dynamic buffer whose reservation is exactly its length — no slack —
/// reports the same count under used-only and capacity-inclusive
/// accounting, provided its elements do too.
pub proof fn lemma_no_slack_modes_agree<T: MemSize>(b: &DynBuf<T>, f1: SizeFlags, f2: SizeFlags)
    requires
        b.spec_spare() == 0,
        forall|i: int| 0 <= i < b.items().len() ==> (#[trigger] b.items()[i]).spec_mem_size(f1)
            == b.items()[i].spec_mem_size(f2),
    ensures
        b.spec_mem_size(f1) == b.spec_mem_size(f2),
{
    lemma_sum_spec_pointwise_equal(b.items(), f1, f2);
    assert(0 * size_of::<T>() == 0) by (nonlinear_arith);
}

/// Capacity-inclusive accounting never reports less than used-only
/// accounting.
pub proof fn lemma_capacity_never_shrinks<T: MemSize>(v: &T)
    ensures
        v.spec_mem_size((SizeFlags { capacity: false })) <= v.spec_mem_size(
            (SizeFlags { capacity: true }),
        ),
{
    v.lemma_mem_size_monotonic((SizeFlags { capacity: false }), (SizeFlags { capacity: true }));
}

} // verus!
