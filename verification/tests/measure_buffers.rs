//! Measurements of the owning buffer shapes: dynamic buffers, fixed
//! buffers and text buffers, under both accounting modes.

use core::mem::size_of;

use mem_size::DynBuf;
use mem_size::FixedBuf;
use mem_size::MemSize;
use mem_size::SizeFlags;
use mem_size::TextBuf;

#[test]
fn dynamic_buffer_without_slack_agrees_in_both_modes() {
    let buf = DynBuf::from_parts(vec![1u32, 2, 3], 0);
    let header = size_of::<DynBuf<u32>>();
    assert_eq!(buf.mem_size(SizeFlags::used_only()), header + 12);
    assert_eq!(buf.mem_size(SizeFlags::capacity_inclusive()), header + 12);
}

#[test]
fn dynamic_buffer_slack_counts_only_under_capacity_mode() {
    let buf = DynBuf::from_parts(vec![1u32, 2, 3], 7);
    let header = size_of::<DynBuf<u32>>();
    assert_eq!(buf.mem_size(SizeFlags::used_only()), header + 12);
    assert_eq!(
        buf.mem_size(SizeFlags::capacity_inclusive()),
        header + 12 + 7 * 4
    );
}

#[test]
fn empty_dynamic_buffer_reports_header_only() {
    let buf: DynBuf<u64> = DynBuf::from_parts(Vec::new(), 0);
    for f in [SizeFlags::used_only(), SizeFlags::capacity_inclusive()] {
        assert_eq!(buf.mem_size(f), size_of::<DynBuf<u64>>());
    }
}

#[test]
fn dynamic_buffer_reads_real_vector_capacity() {
    let mut v: Vec<u32> = Vec::with_capacity(10);
    v.push(1);
    v.push(2);
    v.push(3);
    let buf = DynBuf::from_vec(v);
    let header = size_of::<DynBuf<u32>>();
    assert!(buf.spare() >= 7);
    assert_eq!(buf.mem_size(SizeFlags::used_only()), header + 12);
    assert_eq!(
        buf.mem_size(SizeFlags::capacity_inclusive()),
        header + 12 + buf.spare() * 4
    );
}

#[test]
fn capacity_flag_propagates_through_nested_buffers() {
    let inner = DynBuf::from_parts(vec![1u8, 2], 3);
    let inner_header = size_of::<DynBuf<u8>>();
    let outer = DynBuf::from_parts(vec![inner], 5);
    let outer_header = size_of::<DynBuf<DynBuf<u8>>>();
    assert_eq!(
        outer.mem_size(SizeFlags::used_only()),
        outer_header + inner_header + 2
    );
    assert_eq!(
        outer.mem_size(SizeFlags::capacity_inclusive()),
        outer_header + (inner_header + 2 + 3) + 5 * inner_header
    );
}

#[test]
fn fixed_buffer_agrees_in_both_modes() {
    let buf = FixedBuf::from_vec(vec![1u64, 2]);
    for f in [SizeFlags::used_only(), SizeFlags::capacity_inclusive()] {
        assert_eq!(buf.mem_size(f), size_of::<FixedBuf<u64>>() + 16);
    }
}

#[test]
fn fixed_buffer_of_indirections_counts_pointees() {
    let buf = FixedBuf::from_vec(vec![Box::new(1u32), Box::new(2)]);
    for f in [SizeFlags::used_only(), SizeFlags::capacity_inclusive()] {
        assert_eq!(
            buf.mem_size(f),
            size_of::<FixedBuf<Box<u32>>>() + 2 * (size_of::<Box<u32>>() + 4)
        );
    }
}

#[test]
fn text_buffer_without_slack_agrees_in_both_modes() {
    let t = TextBuf::from_parts(String::from("hello"), 0);
    let header = size_of::<TextBuf>();
    assert_eq!(t.mem_size(SizeFlags::used_only()), header + 5);
    assert_eq!(t.mem_size(SizeFlags::capacity_inclusive()), header + 5);
}

#[test]
fn grown_text_buffer_reports_reserved_bytes_under_capacity_mode() {
    let t = TextBuf::from_parts(String::from("hello"), 15);
    let header = size_of::<TextBuf>();
    assert_eq!(t.mem_size(SizeFlags::used_only()), header + 5);
    assert_eq!(t.mem_size(SizeFlags::capacity_inclusive()), header + 20);
}

#[test]
fn text_buffer_counts_utf8_bytes_not_characters() {
    let t = TextBuf::from_parts(String::from("h\u{e9}llo"), 0);
    assert_eq!(t.len_bytes(), 6);
    assert_eq!(
        t.mem_size(SizeFlags::used_only()),
        size_of::<TextBuf>() + 6
    );
}

#[test]
fn text_buffer_reads_real_string_capacity() {
    let mut s = String::with_capacity(20);
    s.push_str("hello");
    let t = TextBuf::from_string(s);
    assert!(t.spare() >= 15);
    assert_eq!(
        t.mem_size(SizeFlags::used_only()),
        size_of::<TextBuf>() + 5
    );
    assert_eq!(
        t.mem_size(SizeFlags::capacity_inclusive()),
        size_of::<TextBuf>() + 5 + t.spare()
    );
}

#[test]
fn measurement_is_idempotent() {
    let buf = DynBuf::from_parts(vec![1u32, 2, 3], 7);
    for f in [SizeFlags::used_only(), SizeFlags::capacity_inclusive()] {
        assert_eq!(buf.mem_size(f), buf.mem_size(f));
    }
    let t = TextBuf::from_parts(String::from("hello"), 15);
    for f in [SizeFlags::used_only(), SizeFlags::capacity_inclusive()] {
        assert_eq!(t.mem_size(f), t.mem_size(f));
    }
}

#[test]
fn capacity_mode_never_reports_less_than_used_mode() {
    let used = SizeFlags::used_only();
    let cap = SizeFlags::capacity_inclusive();
    let buf = DynBuf::from_parts(vec![1u32, 2, 3], 7);
    assert!(buf.mem_size(cap) >= buf.mem_size(used));
    let empty: DynBuf<u8> = DynBuf::from_parts(Vec::new(), 0);
    assert!(empty.mem_size(cap) >= empty.mem_size(used));
    let t = TextBuf::from_parts(String::from("hi"), 30);
    assert!(t.mem_size(cap) >= t.mem_size(used));
    let nested = DynBuf::from_parts(vec![DynBuf::from_parts(vec![1u16], 4)], 2);
    assert!(nested.mem_size(cap) >= nested.mem_size(used));
    let plain = 5u64;
    assert!(plain.mem_size(cap) >= plain.mem_size(used));
}

#[test]
fn buffer_accessors_expose_contents() {
    let buf = DynBuf::from_parts(vec![4u32, 5], 1);
    assert_eq!(buf.len(), 2);
    assert_eq!(buf.spare(), 1);
    assert_eq!(buf.elements().as_slice(), &[4, 5]);
    assert_eq!(buf.into_vec(), vec![4, 5]);
    let fixed = FixedBuf::from_vec(vec![9u8]);
    assert_eq!(fixed.len(), 1);
    assert_eq!(fixed.elements().as_slice(), &[9]);
    assert_eq!(fixed.into_vec(), vec![9]);
    let t = TextBuf::from_parts(String::from("ab"), 0);
    assert_eq!(t.len_bytes(), 2);
    assert_eq!(t.into_string(), String::from("ab"));
}
