//! Typed integer addresses for memory outside the local address space.
//!
//! Models 32-bit and 64-bit addresses into a foreign memory space (another
//! process, a device, a serialized dump) as plain integers decorated with a
//! phantom pointee type. Such an address carries the type safety,
//! arithmetic and formatting of a native pointer without being one: it is
//! never dereferenced locally, has a fixed width independent of the host,
//! and is plain copyable data.

use vstd::prelude::*;

pub mod ptr32;
pub mod ptr64;

pub use ptr32::IntPtr32;
pub use ptr64::IntPtr64;

/// The typed address matching the host's native pointer width.
pub use ptr64::IntPtr64 as IntPtr;

verus! {

impl<T: ?Sized> From<IntPtr32<T>> for IntPtr64<T> {
    /// Widens a 32-bit address to 64 bits by zero-extension, preserving
    /// the pointee type. The lossy direction is deliberately not offered.
    fn from(ptr: IntPtr32<T>) -> (r: IntPtr64<T>) {
        IntPtr64::from_raw(ptr.into_raw() as u64)
    }
}

impl<T: ?Sized> vstd::std_specs::convert::FromSpecImpl<IntPtr32<T>> for IntPtr64<T> {
    open spec fn obeys_from_spec() -> bool {
        true
    }

    open spec fn from_spec(ptr: IntPtr32<T>) -> IntPtr64<T> {
        IntPtr64::spec_from_raw(ptr.addr() as u64)
    }
}

/// Law: the cross-width conversion zero-extends: the wide address holds
/// the narrow raw value unchanged, with no sign extension and no byte
/// swap.
pub proof fn lemma_widen_zero_extends<T: ?Sized>(ptr: IntPtr32<T>)
    ensures
        <IntPtr64<T> as vstd::std_specs::convert::FromSpec<IntPtr32<T>>>::from_spec(ptr).addr()
            == ptr.addr(),
{
    ptr64::lemma_raw_round_trip::<T>(ptr.addr() as u64);
}

} // verus!
