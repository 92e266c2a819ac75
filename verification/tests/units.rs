use intptr::{IntPtr, IntPtr32, IntPtr64};
use std::mem;

fn display(bytes: Vec<u8>) -> String {
    String::from_utf8(bytes).unwrap()
}

#[test]
fn test_match() {
    let test_ptr: IntPtr = IntPtr::from_raw(0x1000);
    match test_ptr {
        p if p == IntPtr::from_raw(0x1000) => (),
        _ => panic!(),
    }
}

#[test]
fn ptr32_units() {
    let a = IntPtr32::<f32>::from(0x2000);
    let b = a.add(0x40);
    let c = a.sub(0x40);
    assert_eq!(mem::size_of_val(&a), 4);
    assert_eq!(b.into_raw(), 0x2100);
    assert_eq!(display(a.display_bytes()), "0x00002000");
    assert_eq!(display(IntPtr32::<()>::new().display_bytes()), "0x0");
    assert_eq!(c.into_raw(), 0x1F00);
    assert_eq!(
        IntPtr32::<[u32]>::from_raw(0x1000).at(1),
        IntPtr32::<u32>::from_raw(0x1004)
    );
    assert_eq!(
        IntPtr32::<[u32; 2]>::from_raw(0x1000).at(1),
        IntPtr32::<u32>::from_raw(0x1004)
    );
}

#[test]
fn ptr64_units() {
    let a = IntPtr64::<f64>::from(0x2000);
    let b = a.add(0x40);
    let c = a.sub(0x40);
    assert_eq!(mem::size_of_val(&a), 8);
    assert_eq!(b.into_raw(), 0x2200);
    assert_eq!(display(a.display_bytes()), "0x0000000000002000");
    assert_eq!(c.into_raw(), 0x1E00);
}
