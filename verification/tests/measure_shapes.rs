//! Measurements of scalars, optionals, aggregates, indirections and
//! borrowed references.

use core::marker::PhantomData;
use core::mem::size_of;

use mem_size::DynBuf;
use mem_size::MemSize;
use mem_size::SizeFlags;

fn both_modes() -> [SizeFlags; 2] {
    [SizeFlags::used_only(), SizeFlags::capacity_inclusive()]
}

#[test]
fn scalars_report_their_layout_size() {
    for f in both_modes() {
        assert_eq!(().mem_size(f), 0);
        assert_eq!(true.mem_size(f), 1);
        assert_eq!('x'.mem_size(f), 4);
        assert_eq!(0u8.mem_size(f), 1);
        assert_eq!(1u16.mem_size(f), 2);
        assert_eq!(7u32.mem_size(f), 4);
        assert_eq!(9u64.mem_size(f), 8);
        assert_eq!(3u128.mem_size(f), 16);
        assert_eq!(5usize.mem_size(f), size_of::<usize>());
        assert_eq!((-1i8).mem_size(f), 1);
        assert_eq!((-1i16).mem_size(f), 2);
        assert_eq!((-1i32).mem_size(f), 4);
        assert_eq!((-1i64).mem_size(f), 8);
        assert_eq!((-1i128).mem_size(f), 16);
        assert_eq!((-5isize).mem_size(f), size_of::<isize>());
    }
}

#[test]
fn scalar_size_is_independent_of_value() {
    for f in both_modes() {
        assert_eq!(u32::MIN.mem_size(f), u32::MAX.mem_size(f));
        assert_eq!(0u64.mem_size(f), u64::MAX.mem_size(f));
    }
}

#[test]
fn absent_optional_reports_wrapper_size_only() {
    for f in both_modes() {
        let none_small: Option<u8> = None;
        assert_eq!(none_small.mem_size(f), size_of::<Option<u8>>());
        let none_large: Option<DynBuf<u64>> = None;
        assert_eq!(none_large.mem_size(f), size_of::<Option<DynBuf<u64>>>());
        let none_boxed: Option<Box<[u8; 1024]>> = None;
        assert_eq!(none_boxed.mem_size(f), size_of::<Option<Box<[u8; 1024]>>>());
    }
}

#[test]
fn present_optional_adds_extra_bytes_only() {
    for f in both_modes() {
        let inline_only: Option<u32> = Some(5);
        assert_eq!(inline_only.mem_size(f), size_of::<Option<u32>>());
        let boxed: Option<Box<u64>> = Some(Box::new(7));
        assert_eq!(boxed.mem_size(f), size_of::<Option<Box<u64>>>() + 8);
    }
}

#[test]
fn scalar_array_has_no_per_element_overhead() {
    let arr: [u32; 4] = [1, 2, 3, 4];
    for f in both_modes() {
        assert_eq!(arr.mem_size(f), size_of::<[u32; 4]>());
        assert_eq!(arr.mem_size(f), 4 * size_of::<u32>());
        assert_eq!(arr.mem_size(f), 16);
    }
}

#[test]
fn empty_array_reports_zero() {
    let arr: [u64; 0] = [];
    for f in both_modes() {
        assert_eq!(arr.mem_size(f), 0);
    }
}

#[test]
fn array_of_indirections_counts_each_pointee() {
    let arr: [Box<u16>; 2] = [Box::new(1), Box::new(2)];
    for f in both_modes() {
        assert_eq!(arr.mem_size(f), size_of::<[Box<u16>; 2]>() + 2 * 2);
    }
}

#[test]
fn indirection_adds_full_pointee_size() {
    for f in both_modes() {
        let b = Box::new(5u64);
        assert_eq!(b.mem_size(f), size_of::<Box<u64>>() + 8);
        let nested: Box<Box<u8>> = Box::new(Box::new(1));
        assert_eq!(
            nested.mem_size(f),
            size_of::<Box<Box<u8>>>() + size_of::<Box<u8>>() + 1
        );
    }
}

#[test]
fn borrowed_reference_reports_handle_only() {
    let big = [0u8; 4096];
    let r = &big;
    for f in both_modes() {
        // A plain `r.mem_size(f)` would dispatch to the pointee's rule;
        // name the reference rule to measure the handle itself.
        assert_eq!(
            <&[u8; 4096] as MemSize>::mem_size(&r, f),
            size_of::<&[u8; 4096]>()
        );
        assert_eq!(<&[u8; 4096] as MemSize>::mem_size(&r, f), size_of::<usize>());
    }
}

#[test]
fn borrowed_text_view_reports_handle_only() {
    let s: &str = "a rather long borrowed string that is not owned here";
    for f in both_modes() {
        assert_eq!(s.mem_size(f), size_of::<&str>());
    }
}

#[test]
fn mutable_borrow_reports_handle_only() {
    let mut big = [0u8; 4096];
    let r = &mut big;
    for f in both_modes() {
        assert_eq!(
            <&mut [u8; 4096] as MemSize>::mem_size(&r, f),
            size_of::<usize>()
        );
    }
}

#[test]
fn marker_type_reports_zero() {
    let p: PhantomData<u64> = PhantomData;
    for f in both_modes() {
        assert_eq!(p.mem_size(f), 0);
    }
}

#[test]
fn default_flags_are_used_only() {
    assert_eq!(SizeFlags::default(), SizeFlags::used_only());
    assert!(!SizeFlags::default().capacity);
    assert!(SizeFlags::capacity_inclusive().capacity);
}
