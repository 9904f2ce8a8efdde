//! Composition rules for structural shapes that wrap a single value:
//! optional values, owned indirections, borrowed references and marker
//! types.
//!
//! An optional stores its payload inline, so only the payload's bytes
//! beyond its own in-place layout size are added; an owned indirection
//! stores its pointee entirely out of line, so the pointee's full
//! recursive size is added; a borrowed reference owns nothing beyond the
//! handle itself.

use vstd::prelude::*;
use vstd::layout::size_of;
use crate::flags::SizeFlags;
use crate::mem_size::MemSize;
use crate::mem_size::size_of_fits;

verus! {

impl<T: MemSize> MemSize for Option<T> {
    /// The wrapper's own layout size plus, if a value is present, the
    /// payload's bytes beyond its plain inline size.  An absent optional
    /// reports exactly the wrapper's layout size, whatever `T` is.
    open spec fn spec_mem_size(&self, flags: SizeFlags) -> int {
        size_of::<Option<T>>() as int + match self {
            Option::None => 0,
            Option::Some(x) => x.spec_mem_size(flags) - size_of::<T>() as int,
        }
    }

    open spec fn mem_size_fits(&self, flags: SizeFlags) -> bool {
        &&& size_of_fits::<Option<T>>()
        &&& size_of::<T>() <= size_of::<Option<T>>()
        &&& match self {
            Option::None => true,
            Option::Some(x) => x.mem_size_fits(flags) && self.spec_mem_size(flags)
                <= usize::MAX as int,
        }
    }

    proof fn lemma_mem_size_inline_bound(&self, flags: SizeFlags) {
        match self {
            Option::None => {
            },
            Option::Some(x) => {
                x.lemma_mem_size_inline_bound(flags);
            },
        }
    }

    proof fn lemma_mem_size_fits_bound(&self, flags: SizeFlags) {
    }

    proof fn lemma_mem_size_monotonic(&self, f1: SizeFlags, f2: SizeFlags) {
        match self {
            Option::None => {
            },
            Option::Some(x) => {
                x.lemma_mem_size_monotonic(f1, f2);
            },
        }
    }

    fn mem_size(&self, flags: SizeFlags) -> (r: usize) {
        let wrapper = core::mem::size_of::<Option<T>>();
        let inline = core::mem::size_of::<T>();
        if inline > wrapper {
            usize::MAX
        } else {
            match self {
                Option::None => wrapper,
                Option::Some(x) => {
                    proof {
                        x.lemma_mem_size_inline_bound(flags);
                    }
                    let inner = x.mem_size(flags);
                    wrapper.saturating_add(inner - inline)
                },
            }
        }
    }
}

impl<T: MemSize> MemSize for Box<T> {
    /// The pointer-sized handle plus the full recursive size of the
    /// pointee, which lives entirely out of line.
    open spec fn spec_mem_size(&self, flags: SizeFlags) -> int {
        size_of::<Box<T>>() as int + (**self).spec_mem_size(flags)
    }

    open spec fn mem_size_fits(&self, flags: SizeFlags) -> bool {
        &&& size_of_fits::<Box<T>>()
        &&& (**self).mem_size_fits(flags)
        &&& self.spec_mem_size(flags) <= usize::MAX as int
    }

    proof fn lemma_mem_size_inline_bound(&self, flags: SizeFlags) {
        (**self).lemma_mem_size_inline_bound(flags);
    }

    proof fn lemma_mem_size_fits_bound(&self, flags: SizeFlags) {
    }

    proof fn lemma_mem_size_monotonic(&self, f1: SizeFlags, f2: SizeFlags) {
        (**self).lemma_mem_size_monotonic(f1, f2);
    }

    fn mem_size(&self, flags: SizeFlags) -> (r: usize) {
        let handle = core::mem::size_of::<Box<T>>();
        let inner = (&**self).mem_size(flags);
        proof {
            (**self).lemma_mem_size_inline_bound(flags);
        }
        handle.saturating_add(inner)
    }
}

impl<'a, T> MemSize for &'a T {
    /// A borrowed reference never owns its referent: it reports the
    /// inline cost of the handle alone, whatever it points to.
    open spec fn spec_mem_size(&self, flags: SizeFlags) -> int {
        size_of::<&'a T>() as int
    }

    open spec fn mem_size_fits(&self, flags: SizeFlags) -> bool {
        size_of_fits::<&'a T>()
    }

    proof fn lemma_mem_size_inline_bound(&self, flags: SizeFlags) {
    }

    proof fn lemma_mem_size_fits_bound(&self, flags: SizeFlags) {
    }

    proof fn lemma_mem_size_monotonic(&self, f1: SizeFlags, f2: SizeFlags) {
    }

    fn mem_size(&self, flags: SizeFlags) -> (r: usize) {
        core::mem::size_of::<&'a T>()
    }
}

impl<'a> MemSize for &'a str {
    /// A borrowed text view reports the inline cost of the view handle
    /// (pointer and length fields), never the referenced bytes.
    open spec fn spec_mem_size(&self, flags: SizeFlags) -> int {
        size_of::<&'a str>() as int
    }

    open spec fn mem_size_fits(&self, flags: SizeFlags) -> bool {
        size_of_fits::<&'a str>()
    }

    proof fn lemma_mem_size_inline_bound(&self, flags: SizeFlags) {
    }

    proof fn lemma_mem_size_fits_bound(&self, flags: SizeFlags) {
    }

    proof fn lemma_mem_size_monotonic(&self, f1: SizeFlags, f2: SizeFlags) {
    }

    fn mem_size(&self, flags: SizeFlags) -> (r: usize) {
        core::mem::size_of::<&'a str>()
    }
}

impl<T> MemSize for core::marker::PhantomData<T> {
    /// A marker type occupies its own (zero) layout size and owns nothing.
    open spec fn spec_mem_size(&self, flags: SizeFlags) -> int {
        size_of::<core::marker::PhantomData<T>>() as int
    }

    open spec fn mem_size_fits(&self, flags: SizeFlags) -> bool {
        size_of_fits::<core::marker::PhantomData<T>>()
    }

    proof fn lemma_mem_size_inline_bound(&self, flags: SizeFlags) {
    }

    proof fn lemma_mem_size_fits_bound(&self, flags: SizeFlags) {
    }

    proof fn lemma_mem_size_monotonic(&self, f1: SizeFlags, f2: SizeFlags) {
    }

    fn mem_size(&self, flags: SizeFlags) -> (r: usize) {
        core::mem::size_of::<core::marker::PhantomData<T>>()
    }
}

impl<'a, T> MemSize for &'a mut T {
    /// A mutable borrow owns nothing either: it reports the inline cost
    /// of the handle alone.
    open spec fn spec_mem_size(&self, flags: SizeFlags) -> int {
        size_of::<&'a mut T>() as int
    }

    open spec fn mem_size_fits(&self, flags: SizeFlags) -> bool {
        size_of_fits::<&'a mut T>()
    }

    proof fn lemma_mem_size_inline_bound(&self, flags: SizeFlags) {
    }

    proof fn lemma_mem_size_fits_bound(&self, flags: SizeFlags) {
    }

    proof fn lemma_mem_size_monotonic(&self, f1: SizeFlags, f2: SizeFlags) {
    }

    fn mem_size(&self, flags: SizeFlags) -> (r: usize) {
        core::mem::size_of::<&'a mut T>()
    }
}

} // verus!
