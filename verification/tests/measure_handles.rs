//! Measurements of opaque memory-mapping handles: only the handle's own
//! layout size is reported, never the mapped region.

use core::mem::size_of;

use mem_size::MemSize;
use mem_size::SizeFlags;
use mmap_rs::MmapOptions;

#[test]
fn mapping_handle_reports_inline_size_only() {
    let size = MmapOptions::page_size();
    let map = MmapOptions::new(size).unwrap().map().unwrap();
    for f in [SizeFlags::used_only(), SizeFlags::capacity_inclusive()] {
        assert_eq!(map.mem_size(f), size_of::<mmap_rs::Mmap>());
    }
}

#[test]
fn mutable_mapping_handle_reports_inline_size_only() {
    let size = MmapOptions::page_size();
    let map = MmapOptions::new(size).unwrap().map_mut().unwrap();
    for f in [SizeFlags::used_only(), SizeFlags::capacity_inclusive()] {
        assert_eq!(map.mem_size(f), size_of::<mmap_rs::MmapMut>());
    }
}

#[test]
fn large_mapping_contributes_nothing_beyond_the_handle() {
    let page = MmapOptions::page_size();
    let small = MmapOptions::new(page).unwrap().map().unwrap();
    let large = MmapOptions::new(64 * page).unwrap().map().unwrap();
    let f = SizeFlags::capacity_inclusive();
    assert_eq!(small.mem_size(f), large.mem_size(f));
}

#[test]
fn optional_mapping_composes_with_the_optional_rule() {
    let page = MmapOptions::page_size();
    let map = MmapOptions::new(page).unwrap().map().unwrap();
    let some: Option<mmap_rs::Mmap> = Some(map);
    let none: Option<mmap_rs::Mmap> = None;
    for f in [SizeFlags::used_only(), SizeFlags::capacity_inclusive()] {
        assert_eq!(some.mem_size(f), size_of::<Option<mmap_rs::Mmap>>());
        assert_eq!(none.mem_size(f), size_of::<Option<mmap_rs::Mmap>>());
    }
}
