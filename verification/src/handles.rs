//! Opaque external handles: memory-mapped regions.
//!
//! A mapping handle is measured as its own in-place layout size only.
//! The mapped bytes are backing storage managed outside the process's
//! own heap accounting and are deliberately not counted.

use vstd::prelude::*;
use vstd::layout::size_of;
use crate::flags::SizeFlags;
use crate::mem_size::MemSize;
use crate::mem_size::size_of_fits;

verus! {

/// `mmap_rs::Mmap`, an immutable memory mapping, held as an opaque value.
#[verifier::external_type_specification]
#[verifier::external_body]
pub struct ExMmap(mmap_rs::Mmap);

/// `mmap_rs::MmapMut`, a mutable memory mapping, held as an opaque value.
#[verifier::external_type_specification]
#[verifier::external_body]
pub struct ExMmapMut(mmap_rs::MmapMut);

impl MemSize for mmap_rs::Mmap {
    /// The handle's own layout size; the mapped region is not owned heap
    /// storage and contributes nothing.
    open spec fn spec_mem_size(&self, flags: SizeFlags) -> int {
        size_of::<mmap_rs::Mmap>() as int
    }

    open spec fn mem_size_fits(&self, flags: SizeFlags) -> bool {
        size_of_fits::<mmap_rs::Mmap>()
    }

    proof fn lemma_mem_size_inline_bound(&self, flags: SizeFlags) {
    }

    proof fn lemma_mem_size_fits_bound(&self, flags: SizeFlags) {
    }

    proof fn lemma_mem_size_monotonic(&self, f1: SizeFlags, f2: SizeFlags) {
    }

    fn mem_size(&self, flags: SizeFlags) -> (r: usize) {
        core::mem::size_of::<mmap_rs::Mmap>()
    }
}

impl MemSize for mmap_rs::MmapMut {
    /// The handle's own layout size; the mapped region is not owned heap
    /// storage and contributes nothing.
    open spec fn spec_mem_size(&self, flags: SizeFlags) -> int {
        size_of::<mmap_rs::MmapMut>() as int
    }

    open spec fn mem_size_fits(&self, flags: SizeFlags) -> bool {
        size_of_fits::<mmap_rs::MmapMut>()
    }

    proof fn lemma_mem_size_inline_bound(&self, flags: SizeFlags) {
    }

    proof fn lemma_mem_size_fits_bound(&self, flags: SizeFlags) {
    }

    proof fn lemma_mem_size_monotonic(&self, f1: SizeFlags, f2: SizeFlags) {
    }

    fn mem_size(&self, flags: SizeFlags) -> (r: usize) {
        core::mem::size_of::<mmap_rs::MmapMut>()
    }
}

} // verus!
