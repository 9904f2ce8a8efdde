//! The composition rule for fixed-size aggregates.
//!
//! An array's own layout already charges one inline slot per element, so
//! each element adds only its bytes beyond that slot.  Equivalently, the
//! aggregate reports its own layout size plus the sum of the elements'
//! recursive sizes minus one inline slot each.

use vstd::prelude::*;
use vstd::layout::size_of;
use crate::flags::SizeFlags;
use crate::mem_size::MemSize;
use crate::mem_size::all_fit;
use crate::mem_size::clamp_to_usize;
use crate::mem_size::lemma_sum_measured_eq_spec;
use crate::mem_size::lemma_sum_measured_overflow;
use crate::mem_size::lemma_sum_measured_take_step;
use crate::mem_size::lemma_sum_spec_lower_bound;
use crate::mem_size::lemma_sum_spec_monotonic;
use crate::mem_size::measured;
use crate::mem_size::size_of_fits;
use crate::mem_size::sum_measured;
use crate::mem_size::sum_spec_mem_size;

verus! {

broadcast use vstd::array::group_array_axioms;

impl<T: MemSize, const N: usize> MemSize for [T; N] {
    /// The aggregate's own layout size plus, for each element, the bytes
    /// the element owns beyond its inline slot.
    open spec fn spec_mem_size(&self, flags: SizeFlags) -> int {
        size_of::<[T; N]>() as int + sum_spec_mem_size(self@, flags) - self@.len() * size_of::<
            T,
        >() as int
    }

    open spec fn mem_size_fits(&self, flags: SizeFlags) -> bool {
        &&& size_of_fits::<[T; N]>()
        &&& size_of_fits::<T>()
        &&& (N > 0 ==> size_of::<T>() <= size_of::<[T; N]>())
        &&& all_fit(self@, flags)
        &&& self.spec_mem_size(flags) <= usize::MAX as int
    }

    proof fn lemma_mem_size_inline_bound(&self, flags: SizeFlags) {
        lemma_sum_spec_lower_bound(self@, flags);
    }

    proof fn lemma_mem_size_fits_bound(&self, flags: SizeFlags) {
    }

    proof fn lemma_mem_size_monotonic(&self, f1: SizeFlags, f2: SizeFlags) {
        lemma_sum_spec_monotonic(self@, f1, f2);
    }

    fn mem_size(&self, flags: SizeFlags) -> (r: usize) {
        let aggregate = core::mem::size_of::<[T; N]>();
        let inline = core::mem::size_of::<T>();
        if N > 0 && inline > aggregate {
            return usize::MAX;
        }
        let mut acc = aggregate;
        let mut i: usize = 0;
        while i < N
            invariant
                i <= N,
                aggregate as nat == size_of::<[T; N]>(),
                inline as nat == size_of::<T>(),
                N > 0 ==> inline <= aggregate,
                acc as int == clamp_to_usize(
                    aggregate + sum_measured(self@.take(i as int), flags) - i * inline,
                ),
            decreases N - i,
        {
            let x = &self[i];
            proof {
                x.lemma_mem_size_inline_bound(flags);
                if x.mem_size_fits(flags) {
                    x.lemma_mem_size_fits_bound(flags);
                }
                lemma_sum_measured_take_step(self@, flags, i as int);
                assert((i + 1) * inline == i * inline + inline) by (nonlinear_arith);
            }
            let rx = x.mem_size(flags);
            acc = acc.saturating_add(rx - inline);
            i += 1;
        }
        proof {
            assert(self@.take(N as int) =~= self@);
            if self.mem_size_fits(flags) {
                lemma_sum_measured_eq_spec(self@, flags);
            } else if !all_fit(self@, flags) {
                lemma_sum_measured_overflow(self@, flags);
                assert((N - 1) * size_of::<T>() == N * size_of::<T>() - size_of::<T>())
                    by (nonlinear_arith);
            } else {
                lemma_sum_measured_eq_spec(self@, flags);
            }
        }
        acc
    }
}

} // verus!
