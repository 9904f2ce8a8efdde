//! Recursive memory-footprint introspection.
//!
//! Types that implement [`MemSize`] report the number of bytes they occupy,
//! including bytes owned indirectly through heap allocations, at the
//! granularity of the language's own layout rules.  A [`SizeFlags`] value
//! chooses between used-only and capacity-inclusive accounting.

mod arrays;
mod buffers;
mod composite;
mod flags;
mod handles;
pub mod laws;
mod mem_size;
mod scalars;

pub use buffers::DynBuf;
pub use buffers::FixedBuf;
pub use buffers::TextBuf;
pub use flags::SizeFlags;
pub use handles::ExMmap;
pub use handles::ExMmapMut;
pub use mem_size::MemSize;
pub use mem_size::all_fit;
pub use mem_size::clamp_to_usize;
pub use mem_size::measured;
pub use mem_size::size_of_fits;
pub use mem_size::sum_measured;
pub use mem_size::sum_spec_mem_size;
