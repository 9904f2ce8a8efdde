//! The primitive table: every fixed-layout scalar type reports exactly its
//! own in-place layout size, independent of its value and of the flags.

use vstd::prelude::*;
use vstd::layout::size_of;
use crate::flags::SizeFlags;
use crate::mem_size::MemSize;
use crate::mem_size::size_of_fits;

verus! {

impl MemSize for () {
    open spec fn spec_mem_size(&self, flags: SizeFlags) -> int {
        size_of::<()>() as int
    }

    open spec fn mem_size_fits(&self, flags: SizeFlags) -> bool {
        size_of_fits::<()>()
    }

    proof fn lemma_mem_size_inline_bound(&self, flags: SizeFlags) {
    }

    proof fn lemma_mem_size_fits_bound(&self, flags: SizeFlags) {
    }

    proof fn lemma_mem_size_monotonic(&self, f1: SizeFlags, f2: SizeFlags) {
    }

    fn mem_size(&self, flags: SizeFlags) -> (r: usize) {
        core::mem::size_of::<()>()
    }
}

impl MemSize for bool {
    open spec fn spec_mem_size(&self, flags: SizeFlags) -> int {
        size_of::<bool>() as int
    }

    open spec fn mem_size_fits(&self, flags: SizeFlags) -> bool {
        size_of_fits::<bool>()
    }

    proof fn lemma_mem_size_inline_bound(&self, flags: SizeFlags) {
    }

    proof fn lemma_mem_size_fits_bound(&self, flags: SizeFlags) {
    }

    proof fn lemma_mem_size_monotonic(&self, f1: SizeFlags, f2: SizeFlags) {
    }

    fn mem_size(&self, flags: SizeFlags) -> (r: usize) {
        core::mem::size_of::<bool>()
    }
}

impl MemSize for char {
    open spec fn spec_mem_size(&self, flags: SizeFlags) -> int {
        size_of::<char>() as int
    }

    open spec fn mem_size_fits(&self, flags: SizeFlags) -> bool {
        size_of_fits::<char>()
    }

    proof fn lemma_mem_size_inline_bound(&self, flags: SizeFlags) {
    }

    proof fn lemma_mem_size_fits_bound(&self, flags: SizeFlags) {
    }

    proof fn lemma_mem_size_monotonic(&self, f1: SizeFlags, f2: SizeFlags) {
    }

    fn mem_size(&self, flags: SizeFlags) -> (r: usize) {
        core::mem::size_of::<char>()
    }
}

impl MemSize for u8 {
    open spec fn spec_mem_size(&self, flags: SizeFlags) -> int {
        size_of::<u8>() as int
    }

    open spec fn mem_size_fits(&self, flags: SizeFlags) -> bool {
        size_of_fits::<u8>()
    }

    proof fn lemma_mem_size_inline_bound(&self, flags: SizeFlags) {
    }

    proof fn lemma_mem_size_fits_bound(&self, flags: SizeFlags) {
    }

    proof fn lemma_mem_size_monotonic(&self, f1: SizeFlags, f2: SizeFlags) {
    }

    fn mem_size(&self, flags: SizeFlags) -> (r: usize) {
        core::mem::size_of::<u8>()
    }
}

impl MemSize for u16 {
    open spec fn spec_mem_size(&self, flags: SizeFlags) -> int {
        size_of::<u16>() as int
    }

    open spec fn mem_size_fits(&self, flags: SizeFlags) -> bool {
        size_of_fits::<u16>()
    }

    proof fn lemma_mem_size_inline_bound(&self, flags: SizeFlags) {
    }

    proof fn lemma_mem_size_fits_bound(&self, flags: SizeFlags) {
    }

    proof fn lemma_mem_size_monotonic(&self, f1: SizeFlags, f2: SizeFlags) {
    }

    fn mem_size(&self, flags: SizeFlags) -> (r: usize) {
        core::mem::size_of::<u16>()
    }
}

impl MemSize for u32 {
    open spec fn spec_mem_size(&self, flags: SizeFlags) -> int {
        size_of::<u32>() as int
    }

    open spec fn mem_size_fits(&self, flags: SizeFlags) -> bool {
        size_of_fits::<u32>()
    }

    proof fn lemma_mem_size_inline_bound(&self, flags: SizeFlags) {
    }

    proof fn lemma_mem_size_fits_bound(&self, flags: SizeFlags) {
    }

    proof fn lemma_mem_size_monotonic(&self, f1: SizeFlags, f2: SizeFlags) {
    }

    fn mem_size(&self, flags: SizeFlags) -> (r: usize) {
        core::mem::size_of::<u32>()
    }
}

impl MemSize for u64 {
    open spec fn spec_mem_size(&self, flags: SizeFlags) -> int {
        size_of::<u64>() as int
    }

    open spec fn mem_size_fits(&self, flags: SizeFlags) -> bool {
        size_of_fits::<u64>()
    }

    proof fn lemma_mem_size_inline_bound(&self, flags: SizeFlags) {
    }

    proof fn lemma_mem_size_fits_bound(&self, flags: SizeFlags) {
    }

    proof fn lemma_mem_size_monotonic(&self, f1: SizeFlags, f2: SizeFlags) {
    }

    fn mem_size(&self, flags: SizeFlags) -> (r: usize) {
        core::mem::size_of::<u64>()
    }
}

impl MemSize for u128 {
    open spec fn spec_mem_size(&self, flags: SizeFlags) -> int {
        size_of::<u128>() as int
    }

    open spec fn mem_size_fits(&self, flags: SizeFlags) -> bool {
        size_of_fits::<u128>()
    }

    proof fn lemma_mem_size_inline_bound(&self, flags: SizeFlags) {
    }

    proof fn lemma_mem_size_fits_bound(&self, flags: SizeFlags) {
    }

    proof fn lemma_mem_size_monotonic(&self, f1: SizeFlags, f2: SizeFlags) {
    }

    fn mem_size(&self, flags: SizeFlags) -> (r: usize) {
        core::mem::size_of::<u128>()
    }
}

impl MemSize for usize {
    open spec fn spec_mem_size(&self, flags: SizeFlags) -> int {
        size_of::<usize>() as int
    }

    open spec fn mem_size_fits(&self, flags: SizeFlags) -> bool {
        size_of_fits::<usize>()
    }

    proof fn lemma_mem_size_inline_bound(&self, flags: SizeFlags) {
    }

    proof fn lemma_mem_size_fits_bound(&self, flags: SizeFlags) {
    }

    proof fn lemma_mem_size_monotonic(&self, f1: SizeFlags, f2: SizeFlags) {
    }

    fn mem_size(&self, flags: SizeFlags) -> (r: usize) {
        core::mem::size_of::<usize>()
    }
}

impl MemSize for i8 {
    open spec fn spec_mem_size(&self, flags: SizeFlags) -> int {
        size_of::<i8>() as int
    }

    open spec fn mem_size_fits(&self, flags: SizeFlags) -> bool {
        size_of_fits::<i8>()
    }

    proof fn lemma_mem_size_inline_bound(&self, flags: SizeFlags) {
    }

    proof fn lemma_mem_size_fits_bound(&self, flags: SizeFlags) {
    }

    proof fn lemma_mem_size_monotonic(&self, f1: SizeFlags, f2: SizeFlags) {
    }

    fn mem_size(&self, flags: SizeFlags) -> (r: usize) {
        core::mem::size_of::<i8>()
    }
}

impl MemSize for i16 {
    open spec fn spec_mem_size(&self, flags: SizeFlags) -> int {
        size_of::<i16>() as int
    }

    open spec fn mem_size_fits(&self, flags: SizeFlags) -> bool {
        size_of_fits::<i16>()
    }

    proof fn lemma_mem_size_inline_bound(&self, flags: SizeFlags) {
    }

    proof fn lemma_mem_size_fits_bound(&self, flags: SizeFlags) {
    }

    proof fn lemma_mem_size_monotonic(&self, f1: SizeFlags, f2: SizeFlags) {
    }

    fn mem_size(&self, flags: SizeFlags) -> (r: usize) {
        core::mem::size_of::<i16>()
    }
}

impl MemSize for i32 {
    open spec fn spec_mem_size(&self, flags: SizeFlags) -> int {
        size_of::<i32>() as int
    }

    open spec fn mem_size_fits(&self, flags: SizeFlags) -> bool {
        size_of_fits::<i32>()
    }

    proof fn lemma_mem_size_inline_bound(&self, flags: SizeFlags) {
    }

    proof fn lemma_mem_size_fits_bound(&self, flags: SizeFlags) {
    }

    proof fn lemma_mem_size_monotonic(&self, f1: SizeFlags, f2: SizeFlags) {
    }

    fn mem_size(&self, flags: SizeFlags) -> (r: usize) {
        core::mem::size_of::<i32>()
    }
}

impl MemSize for i64 {
    open spec fn spec_mem_size(&self, flags: SizeFlags) -> int {
        size_of::<i64>() as int
    }

    open spec fn mem_size_fits(&self, flags: SizeFlags) -> bool {
        size_of_fits::<i64>()
    }

    proof fn lemma_mem_size_inline_bound(&self, flags: SizeFlags) {
    }

    proof fn lemma_mem_size_fits_bound(&self, flags: SizeFlags) {
    }

    proof fn lemma_mem_size_monotonic(&self, f1: SizeFlags, f2: SizeFlags) {
    }

    fn mem_size(&self, flags: SizeFlags) -> (r: usize) {
        core::mem::size_of::<i64>()
    }
}

impl MemSize for i128 {
    open spec fn spec_mem_size(&self, flags: SizeFlags) -> int {
        size_of::<i128>() as int
    }

    open spec fn mem_size_fits(&self, flags: SizeFlags) -> bool {
        size_of_fits::<i128>()
    }

    proof fn lemma_mem_size_inline_bound(&self, flags: SizeFlags) {
    }

    proof fn lemma_mem_size_fits_bound(&self, flags: SizeFlags) {
    }

    proof fn lemma_mem_size_monotonic(&self, f1: SizeFlags, f2: SizeFlags) {
    }

    fn mem_size(&self, flags: SizeFlags) -> (r: usize) {
        core::mem::size_of::<i128>()
    }
}

impl MemSize for isize {
    open spec fn spec_mem_size(&self, flags: SizeFlags) -> int {
        size_of::<isize>() as int
    }

    open spec fn mem_size_fits(&self, flags: SizeFlags) -> bool {
        size_of_fits::<isize>()
    }

    proof fn lemma_mem_size_inline_bound(&self, flags: SizeFlags) {
    }

    proof fn lemma_mem_size_fits_bound(&self, flags: SizeFlags) {
    }

    proof fn lemma_mem_size_monotonic(&self, f1: SizeFlags, f2: SizeFlags) {
    }

    fn mem_size(&self, flags: SizeFlags) -> (r: usize) {
        core::mem::size_of::<isize>()
    }
}

} // verus!
