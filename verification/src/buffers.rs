//! Owning buffer shapes: the growable dynamic buffer, the fixed-length
//! contiguous buffer, and the growable text buffer.
//!
//! A growable buffer owns `len` live elements and a number of
//! reserved-but-unused element slots.  How many slots the allocator
//! actually reserved is not visible to the verifier through `Vec` alone,
//! so these shapes record the spare-slot count as a plain value beside
//! the storage: [`DynBuf::from_vec`] reads it from the vector's real
//! capacity, and [`DynBuf::from_parts`] fixes it directly.

use vstd::prelude::*;
use vstd::layout::size_of;
use vstd::utf8::encode_utf8;
use crate::flags::SizeFlags;
use crate::mem_size::MemSize;
use crate::mem_size::all_fit;
use crate::mem_size::clamp_to_usize;
use crate::mem_size::lemma_measured_nonneg;
use crate::mem_size::lemma_sum_measured_eq_spec;
use crate::mem_size::lemma_sum_measured_overflow;
use crate::mem_size::lemma_sum_measured_take_step;
use crate::mem_size::lemma_sum_spec_lower_bound;
use crate::mem_size::lemma_sum_spec_monotonic;
use crate::mem_size::size_of_fits;
use crate::mem_size::sum_measured;
use crate::mem_size::sum_spec_mem_size;

verus! {

/// Relies on `Vec::capacity`: the number of elements the vector can hold
/// without reallocating, which is never less than its length.
#[verifier::external_body]
fn vec_capacity<T>(v: &Vec<T>) -> (r: usize)
    ensures
        r >= v@.len(),
{
    v.capacity()
}

/// Relies on `String::capacity`: the size of the string's buffer in
/// bytes, which is never less than its length in bytes.
#[verifier::external_body]
fn string_capacity(s: &String) -> (r: usize)
    ensures
        r as int >= encode_utf8(s@).len(),
{
    s.capacity()
}

/// An owned, growable dynamic buffer: `items().len()` live elements plus
/// `spec_spare()` reserved-but-unused element slots.
pub struct DynBuf<T> {
    data: Vec<T>,
    spare: usize,
}

impl<T> DynBuf<T> {
    /// The live elements.
    pub closed spec fn items(&self) -> Seq<T> {
        self.data@
    }

    /// The number of reserved-but-unused element slots.
    pub closed spec fn spec_spare(&self) -> nat {
        self.spare as nat
    }

    /// Take over a vector, reading its reserved slack from its real
    /// capacity.  How much slack the allocator granted is not specified;
    /// the measurement is exact for whatever it was.
    pub fn from_vec(data: Vec<T>) -> (r: DynBuf<T>)
        ensures
            r.items() == data@,
    {
        let n = data.len();
        let cap = vec_capacity(&data);
        let spare = cap - n;
        DynBuf { data, spare }
    }

    /// A buffer with the given elements and exactly `spare` unused slots.
    pub fn from_parts(data: Vec<T>, spare: usize) -> (r: DynBuf<T>)
        ensures
            r.items() == data@,
            r.spec_spare() == spare,
    {
        DynBuf { data, spare }
    }

    /// The number of live elements.
    pub fn len(&self) -> (r: usize)
        ensures
            r == self.items().len(),
    {
        self.data.len()
    }

    /// The number of reserved-but-unused element slots.
    pub fn spare(&self) -> (r: usize)
        ensures
            r == self.spec_spare(),
    {
        self.spare
    }

    /// Borrow the live elements.
    pub fn elements(&self) -> (r: &Vec<T>)
        ensures
            r@ == self.items(),
    {
        &self.data
    }

    /// Give the storage back, dropping the slack bookkeeping.
    pub fn into_vec(self) -> (r: Vec<T>)
        ensures
            r@ == self.items(),
    {
        self.data
    }
}

impl<T: MemSize> MemSize for DynBuf<T> {
    /// The buffer's own header plus the full recursive size of each live
    /// element (they live out of line), plus, under capacity-inclusive
    /// accounting, one inline slot per reserved-but-unused element.
    open spec fn spec_mem_size(&self, flags: SizeFlags) -> int {
        size_of::<DynBuf<T>>() as int + sum_spec_mem_size(self.items(), flags) + if flags.capacity {
            self.spec_spare() * size_of::<T>()
        } else {
            0
        }
    }

    open spec fn mem_size_fits(&self, flags: SizeFlags) -> bool {
        &&& size_of_fits::<DynBuf<T>>()
        &&& size_of_fits::<T>()
        &&& all_fit(self.items(), flags)
        &&& self.spec_mem_size(flags) <= usize::MAX as int
    }

    proof fn lemma_mem_size_inline_bound(&self, flags: SizeFlags) {
        lemma_sum_spec_lower_bound(self.items(), flags);
        assert(self.items().len() * size_of::<T>() >= 0) by (nonlinear_arith);
        assert(self.spec_spare() * size_of::<T>() >= 0) by (nonlinear_arith);
    }

    proof fn lemma_mem_size_fits_bound(&self, flags: SizeFlags) {
    }

    proof fn lemma_mem_size_monotonic(&self, f1: SizeFlags, f2: SizeFlags) {
        lemma_sum_spec_monotonic(self.items(), f1, f2);
        assert(self.spec_spare() * size_of::<T>() >= 0) by (nonlinear_arith);
    }

    fn mem_size(&self, flags: SizeFlags) -> (r: usize) {
        let header = core::mem::size_of::<DynBuf<T>>();
        let inline = core::mem::size_of::<T>();
        let n = self.data.len();
        let mut acc = header;
        let mut i: usize = 0;
        while i < n
            invariant
                i <= n,
                n == self.data@.len(),
                header as nat == size_of::<DynBuf<T>>(),
                acc as int == clamp_to_usize(
                    header + sum_measured(self.data@.take(i as int), flags),
                ),
            decreases n - i,
        {
            let x = &self.data[i];
            proof {
                lemma_sum_measured_take_step(self.data@, flags, i as int);
                lemma_measured_nonneg(self.data@[i as int], flags);
            }
            let rx = x.mem_size(flags);
            acc = acc.saturating_add(rx);
            i += 1;
        }
        proof {
            assert(self.data@.take(n as int) =~= self.data@);
            if !all_fit(self.items(), flags) {
                lemma_sum_measured_overflow(self.items(), flags);
                assert(self.items().len() >= 1);
                assert((self.items().len() - 1) * size_of::<T>() >= 0) by (nonlinear_arith)
                    requires
                        self.items().len() >= 1,
                ;
            } else {
                lemma_sum_measured_eq_spec(self.items(), flags);
            }
        }
        if flags.capacity {
            let slack = match self.spare.checked_mul(inline) {
                Some(p) => p,
                None => usize::MAX,
            };
            acc = acc.saturating_add(slack);
        }
        acc
    }
}

/// An owned, fixed-length contiguous buffer: exactly its elements, with
/// no reserved slack, so both accounting modes agree on it.
pub struct FixedBuf<T> {
    data: Vec<T>,
}

impl<T> FixedBuf<T> {
    /// The elements.
    pub closed spec fn items(&self) -> Seq<T> {
        self.data@
    }

    /// Take over a vector as a fixed-length buffer.  Whatever slack the
    /// vector's allocation may carry is no longer reachable through this
    /// shape and is not accounted.
    pub fn from_vec(data: Vec<T>) -> (r: FixedBuf<T>)
        ensures
            r.items() == data@,
    {
        FixedBuf { data }
    }

    /// The number of elements.
    pub fn len(&self) -> (r: usize)
        ensures
            r == self.items().len(),
    {
        self.data.len()
    }

    /// Borrow the elements.
    pub fn elements(&self) -> (r: &Vec<T>)
        ensures
            r@ == self.items(),
    {
        &self.data
    }

    /// Give the storage back.
    pub fn into_vec(self) -> (r: Vec<T>)
        ensures
            r@ == self.items(),
    {
        self.data
    }
}

impl<T: MemSize> MemSize for FixedBuf<T> {
    /// The buffer's own header plus the full recursive size of each
    /// element; there is no slack to account in either mode.
    open spec fn spec_mem_size(&self, flags: SizeFlags) -> int {
        size_of::<FixedBuf<T>>() as int + sum_spec_mem_size(self.items(), flags)
    }

    open spec fn mem_size_fits(&self, flags: SizeFlags) -> bool {
        &&& size_of_fits::<FixedBuf<T>>()
        &&& size_of_fits::<T>()
        &&& all_fit(self.items(), flags)
        &&& self.spec_mem_size(flags) <= usize::MAX as int
    }

    proof fn lemma_mem_size_inline_bound(&self, flags: SizeFlags) {
        lemma_sum_spec_lower_bound(self.items(), flags);
        assert(self.items().len() * size_of::<T>() >= 0) by (nonlinear_arith);
    }

    proof fn lemma_mem_size_fits_bound(&self, flags: SizeFlags) {
    }

    proof fn lemma_mem_size_monotonic(&self, f1: SizeFlags, f2: SizeFlags) {
        lemma_sum_spec_monotonic(self.items(), f1, f2);
    }

    fn mem_size(&self, flags: SizeFlags) -> (r: usize) {
        let header = core::mem::size_of::<FixedBuf<T>>();
        let inline = core::mem::size_of::<T>();
        let n = self.data.len();
        let mut acc = header;
        let mut i: usize = 0;
        while i < n
            invariant
                i <= n,
                n == self.data@.len(),
                header as nat == size_of::<FixedBuf<T>>(),
                inline as nat == size_of::<T>(),
                acc as int == clamp_to_usize(
                    header + sum_measured(self.data@.take(i as int), flags),
                ),
            decreases n - i,
        {
            let x = &self.data[i];
            proof {
                lemma_sum_measured_take_step(self.data@, flags, i as int);
                lemma_measured_nonneg(self.data@[i as int], flags);
            }
            let rx = x.mem_size(flags);
            acc = acc.saturating_add(rx);
            i += 1;
        }
        proof {
            assert(self.data@.take(n as int) =~= self.data@);
            if !all_fit(self.items(), flags) {
                lemma_sum_measured_overflow(self.items(), flags);
                assert(self.items().len() >= 1);
                assert((self.items().len() - 1) * size_of::<T>() >= 0) by (nonlinear_arith)
                    requires
                        self.items().len() >= 1,
                ;
            } else {
                lemma_sum_measured_eq_spec(self.items(), flags);
            }
        }
        acc
    }
}

/// An owned, growable text buffer: a live byte content plus reserved but
/// unused byte capacity.
pub struct TextBuf {
    data: String,
    spare: usize,
}

impl TextBuf {
    /// The live characters.
    pub closed spec fn chars(&self) -> Seq<char> {
        self.data@
    }

    /// The live content's length in bytes.
    pub open spec fn byte_len(&self) -> nat {
        encode_utf8(self.chars()).len()
    }

    /// The number of reserved-but-unused bytes.
    pub closed spec fn spec_spare(&self) -> nat {
        self.spare as nat
    }

    /// Take over a string, reading its reserved slack from its real
    /// capacity.
    pub fn from_string(data: String) -> (r: TextBuf)
        ensures
            r.chars() == data@,
    {
        let n = data.as_str().as_bytes().len();
        let cap = string_capacity(&data);
        let spare = cap - n;
        TextBuf { data, spare }
    }

    /// A text buffer with the given content and exactly `spare` unused
    /// bytes.
    pub fn from_parts(data: String, spare: usize) -> (r: TextBuf)
        ensures
            r.chars() == data@,
            r.spec_spare() == spare,
    {
        TextBuf { data, spare }
    }

    /// The live content's length in bytes.
    pub fn len_bytes(&self) -> (r: usize)
        ensures
            r == self.byte_len(),
    {
        self.data.as_str().as_bytes().len()
    }

    /// The number of reserved-but-unused bytes.
    pub fn spare(&self) -> (r: usize)
        ensures
            r == self.spec_spare(),
    {
        self.spare
    }

    /// Give the text back.
    pub fn into_string(self) -> (r: String)
        ensures
            r@ == self.chars(),
    {
        self.data
    }
}

impl MemSize for TextBuf {
    /// The buffer's own header plus the live byte length; under
    /// capacity-inclusive accounting, the reserved-but-unused bytes as
    /// well.
    open spec fn spec_mem_size(&self, flags: SizeFlags) -> int {
        size_of::<TextBuf>() as int + self.byte_len() + if flags.capacity {
            self.spec_spare() as int
        } else {
            0
        }
    }

    open spec fn mem_size_fits(&self, flags: SizeFlags) -> bool {
        &&& size_of_fits::<TextBuf>()
        &&& self.spec_mem_size(flags) <= usize::MAX as int
    }

    proof fn lemma_mem_size_inline_bound(&self, flags: SizeFlags) {
    }

    proof fn lemma_mem_size_fits_bound(&self, flags: SizeFlags) {
    }

    proof fn lemma_mem_size_monotonic(&self, f1: SizeFlags, f2: SizeFlags) {
    }

    fn mem_size(&self, flags: SizeFlags) -> (r: usize) {
        let header = core::mem::size_of::<TextBuf>();
        let live = self.data.as_str().as_bytes().len();
        let mut acc = header.saturating_add(live);
        if flags.capacity {
            acc = acc.saturating_add(self.spare);
        }
        acc
    }
}

} // verus!
