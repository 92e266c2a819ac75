use intptr::{IntPtr32, IntPtr64};
use std::cmp::Ordering;
use std::mem;

fn display32(p: IntPtr32<()>) -> String {
    String::from_utf8(p.display_bytes()).unwrap()
}

fn display64(p: IntPtr64<()>) -> String {
    String::from_utf8(p.display_bytes()).unwrap()
}

#[test]
fn raw_round_trip() {
    for v in [0u32, 1, 0x1000, 0xdead_beef, u32::MAX] {
        assert_eq!(IntPtr32::<u8>::from_raw(v).into_raw(), v);
    }
    for v in [0u64, 1, 0x1000, 0xdead_beef_dead_beef, u64::MAX] {
        assert_eq!(IntPtr64::<u8>::from_raw(v).into_raw(), v);
    }
}

#[test]
fn null_iff_zero() {
    assert!(IntPtr32::<u8>::from_raw(0).is_null());
    assert!(!IntPtr32::<u8>::from_raw(1).is_null());
    assert!(IntPtr32::<u8>::new().is_null());
    assert!(IntPtr64::<u8>::from_raw(0).is_null());
    assert!(!IntPtr64::<u8>::from_raw(u64::MAX).is_null());
    assert!(IntPtr64::<u8>::new().is_null());
    assert!(IntPtr32::<u8>::default().is_null());
    assert!(IntPtr64::<u8>::default().is_null());
}

#[test]
fn cast_preserves_bits() {
    let a = IntPtr32::<u32>::from_raw(0xdead_beef);
    assert_eq!(a.cast::<u8>().into_raw(), 0xdead_beef);
    let b = IntPtr64::<u32>::from_raw(0xdead_beef_0000_0001);
    assert_eq!(b.cast::<u8>().into_raw(), 0xdead_beef_0000_0001);
}

#[test]
fn field_adds_offset() {
    let a = IntPtr32::<u32>::from_raw(0x2000);
    assert_eq!(a.field::<u8>(0x10).into_raw(), 0x2010);
    let b = IntPtr64::<u32>::from_raw(0x2000);
    assert_eq!(b.field::<u8>(0x10).into_raw(), 0x2010);
    assert_eq!(IntPtr32::<u16>::member(0x2000, 0x24).into_raw(), 0x2024);
    assert_eq!(IntPtr64::<u16>::member(0x2000, 0x24).into_raw(), 0x2024);
}

#[test]
fn offset_wraps_at_boundary() {
    assert_eq!(
        IntPtr32::<u8>::from_raw(u32::MAX).offset::<u8>(1).into_raw(),
        0
    );
    assert_eq!(
        IntPtr32::<u8>::from_raw(0).offset::<u8>(-1).into_raw(),
        u32::MAX
    );
    assert_eq!(
        IntPtr32::<u8>::from_raw(0x2000).offset::<u8>(-0x10).into_raw(),
        0x1ff0
    );
    assert_eq!(
        IntPtr64::<u8>::from_raw(u64::MAX).offset::<u8>(1).into_raw(),
        0
    );
    assert_eq!(
        IntPtr64::<u8>::from_raw(0).offset::<u8>(-1).into_raw(),
        u64::MAX
    );
    assert_eq!(
        IntPtr64::<u8>::from_raw(0x2000).offset::<u8>(-0x10).into_raw(),
        0x1ff0
    );
}

#[test]
fn element_arithmetic_uses_stride() {
    let a = IntPtr32::<u32>::from_raw(0x1000);
    assert_eq!(a.add(4).into_raw(), 0x1010);
    assert_eq!(a.sub(4).into_raw(), 0x0ff0);
    let b = IntPtr64::<u64>::from_raw(0x1000);
    assert_eq!(b.add(4).into_raw(), 0x1020);
    assert_eq!(b.sub(4).into_raw(), 0x0fe0);
}

#[test]
fn decay_at_matches_field_stride() {
    let s = IntPtr32::<[u16]>::from_raw(0x1000);
    assert_eq!(s.at(3), s.decay().add(3));
    assert_eq!(s.at(3).into_raw(), s.cast::<u8>().field::<u16>(6).into_raw());
    let a = IntPtr32::<[u16; 8]>::from_raw(0x1000);
    assert_eq!(a.at(3), a.decay().add(3));
    assert_eq!(a.at(3).into_raw(), 0x1006);
    let t = IntPtr64::<[u16]>::from_raw(0x1000);
    assert_eq!(t.at(3), t.decay().add(3));
    assert_eq!(t.at(3).into_raw(), 0x1006);
}

#[test]
fn formatting_fixed_width() {
    assert_eq!(display32(IntPtr32::from_raw(0x2000)), "0x00002000");
    assert_eq!(display32(IntPtr32::from_raw(0xdead_beef)), "0xdeadbeef");
    assert_eq!(display32(IntPtr32::from_raw(0)), "0x0");
    let padded = IntPtr32::<()>::from_raw(0).fmt();
    assert_eq!(std::str::from_utf8(&padded).unwrap(), "0x00000000");
    assert_eq!(
        display64(IntPtr64::from_raw(0x2000)),
        "0x0000000000002000"
    );
    assert_eq!(
        display64(IntPtr64::from_raw(0)),
        "0x0000000000000000"
    );
    assert_eq!(
        display64(IntPtr64::from_raw(0x0123_4567_89ab_cdef)),
        "0x0123456789abcdef"
    );
}

#[test]
fn widening_zero_extends() {
    let wide = IntPtr64::from(IntPtr32::<u32>::from_raw(0xdead_beef));
    assert_eq!(wide.into_raw(), 0xdead_beef_u64);
    let null = IntPtr64::from(IntPtr32::<u32>::new());
    assert!(null.is_null());
}

#[test]
fn size_is_width_in_bytes() {
    assert_eq!(mem::size_of::<IntPtr32<u8>>(), 4);
    assert_eq!(mem::size_of::<IntPtr32<u64>>(), 4);
    assert_eq!(mem::size_of::<IntPtr32<()>>(), 4);
    assert_eq!(mem::size_of::<IntPtr32<[u32; 16]>>(), 4);
    assert_eq!(mem::size_of::<IntPtr64<u8>>(), 8);
    assert_eq!(mem::size_of::<IntPtr64<u64>>(), 8);
    assert_eq!(mem::size_of::<IntPtr64<()>>(), 8);
    assert_eq!(mem::size_of::<IntPtr64<[u32; 16]>>(), 8);
}

#[test]
fn usize_round_trip() {
    let a = IntPtr32::<u8>::from_usize(0x1000);
    assert_eq!(a.into_raw(), 0x1000);
    assert_eq!(a.into_usize(), 0x1000);
    let b = IntPtr64::<u8>::from_usize(0x1000);
    assert_eq!(b.into_raw(), 0x1000);
    assert_eq!(b.into_usize(), 0x1000);
}

#[test]
fn order_and_equality_by_value() {
    let lo = IntPtr32::<u8>::from_raw(1);
    let hi = IntPtr32::<u8>::from_raw(2);
    assert!(lo < hi);
    assert_eq!(lo.partial_cmp(&hi), Some(Ordering::Less));
    assert_eq!(lo.cmp(&hi), Ordering::Less);
    assert_eq!(hi.partial_cmp(&lo), Some(Ordering::Greater));
    assert_eq!(lo.partial_cmp(&lo), Some(Ordering::Equal));
    assert_eq!(lo, IntPtr32::<u8>::from_raw(1));
    assert_ne!(lo, hi);
    let wlo = IntPtr64::<u8>::from_raw(1);
    let whi = IntPtr64::<u8>::from_raw(2);
    assert!(wlo < whi);
    assert_eq!(wlo.partial_cmp(&whi), Some(Ordering::Less));
    assert_eq!(wlo.cmp(&whi), Ordering::Less);
    assert_eq!(wlo, IntPtr64::<u8>::from_raw(1));
    assert_ne!(wlo, whi);
}
