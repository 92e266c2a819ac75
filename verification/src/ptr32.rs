use vstd::prelude::*;
use vstd::layout::size_of;
use core::marker::PhantomData;
use core::cmp::Ordering;

verus! {

/// The byte `'0'..'9'` or `'a'..'f'` standing for a nibble value.
pub open spec fn spec_hex_digit(nibble: u8) -> u8
    recommends
        nibble < 16,
{
    if nibble < 10 {
        (48 + nibble) as u8
    } else {
        (87 + nibble) as u8
    }
}

/// The eight nibbles of a 32-bit word, most significant first.
pub open spec fn spec_nibbles(word: u32) -> Seq<u8> {
    seq![
        ((word >> 28u32) % 16) as u8,
        ((word >> 24u32) % 16) as u8,
        ((word >> 20u32) % 16) as u8,
        ((word >> 16u32) % 16) as u8,
        ((word >> 12u32) % 16) as u8,
        ((word >> 8u32) % 16) as u8,
        ((word >> 4u32) % 16) as u8,
        (word % 16) as u8,
    ]
}

/// The fixed-width rendering of a 32-bit address: `0x` and eight
/// zero-padded lowercase hex digits, ten bytes in all.
pub open spec fn spec_fmt(word: u32) -> Seq<u8> {
    seq![48u8, 120u8] + spec_nibbles(word).map_values(|n: u8| spec_hex_digit(n))
}

/// The display rendering of a 32-bit address: the null address renders as
/// the short literal `0x0`, every other value in the fixed width of
/// [`spec_fmt`].
pub open spec fn spec_display(word: u32) -> Seq<u8> {
    if word == 0 {
        seq![48u8, 120u8, 48u8]
    } else {
        spec_fmt(word)
    }
}

fn nibbles(word: u32) -> (r: [u8; 8])
    ensures
        r@ == spec_nibbles(word),
{
    let r: [u8; 8] = [
        ((word >> 28) % 16) as u8,
        ((word >> 24) % 16) as u8,
        ((word >> 20) % 16) as u8,
        ((word >> 16) % 16) as u8,
        ((word >> 12) % 16) as u8,
        ((word >> 8) % 16) as u8,
        ((word >> 4) % 16) as u8,
        (word % 16) as u8,
    ];
    proof {
        assert(r@ =~= spec_nibbles(word));
    }
    r
}

fn digit(nibble: u8) -> (r: u8)
    requires
        nibble < 16,
    ensures
        r == spec_hex_digit(nibble),
{
    if nibble < 10 {
        48 + nibble
    } else {
        87 + nibble
    }
}

/// Unmanaged 32-bit typed address.
///
/// Wraps a `u32` naming a location in a foreign memory space, decorated
/// with a phantom pointee type that occupies no storage. The value is
/// never dereferenced locally.
#[derive(Debug, Hash, Ord)]
pub struct IntPtr32<T: ?Sized = ()> {
    address: u32,
    phantom_data: PhantomData<T>,
}

impl<T: ?Sized> IntPtr32<T> {
    /// The raw address value this typed address stands for.
    pub closed spec fn addr(self) -> u32 {
        self.address
    }

    /// The address built from a raw value, as [`IntPtr32::from_raw`] builds it.
    pub closed spec fn spec_from_raw(address: u32) -> IntPtr32<T> {
        IntPtr32 { address, phantom_data: PhantomData }
    }

    /// True iff the address value is zero.
    pub open spec fn spec_is_null(self) -> bool {
        self.addr() == 0
    }

    /// The same address bits under another pointee type, as
    /// [`IntPtr32::cast`] returns them.
    pub closed spec fn spec_cast<U: ?Sized>(self) -> IntPtr32<U> {
        IntPtr32 { address: self.address, phantom_data: PhantomData }
    }

    /// The address moved forward by a byte offset, as [`IntPtr32::field`]
    /// returns it.
    pub closed spec fn spec_field<U: ?Sized>(self, offset: u32) -> IntPtr32<U>
        recommends
            self.addr() + offset <= u32::MAX,
    {
        IntPtr32 { address: (self.addr() + offset) as u32, phantom_data: PhantomData }
    }

    /// The address moved by a signed byte delta, wrapping modulo `2^32`,
    /// as [`IntPtr32::offset`] returns it.
    pub closed spec fn spec_offset<U: ?Sized>(self, delta: i32) -> IntPtr32<U> {
        IntPtr32 {
            address: ((self.addr() + delta) % 0x1_0000_0000) as u32,
            phantom_data: PhantomData,
        }
    }

    /// Creates a null address.
    pub fn new() -> (r: IntPtr32<T>)
        ensures
            r.addr() == 0,
            r == Self::spec_from_raw(0),
    {
        IntPtr32 { address: 0, phantom_data: PhantomData }
    }

    /// Creates an address from its raw integer value; any bit pattern is a
    /// legal foreign address, zero included.
    pub fn from_raw(address: u32) -> (r: IntPtr32<T>)
        ensures
            r.addr() == address,
            r == Self::spec_from_raw(address),
    {
        IntPtr32 { address, phantom_data: PhantomData }
    }

    /// Constructs the address of a member at `offset` bytes past `address`.
    pub fn member(address: u32, offset: u32) -> (r: IntPtr32<T>)
        requires
            address + offset <= u32::MAX,
        ensures
            r.addr() == address + offset,
    {
        let address: u32 = address + offset;
        IntPtr32 { address, phantom_data: PhantomData }
    }

    /// Returns true if the address is null.
    pub fn is_null(self) -> (r: bool)
        ensures
            r == self.spec_is_null(),
    {
        self.address == 0
    }

    /// Casts the address to a different pointee type, keeping the address
    /// value fixed.
    pub fn cast<U: ?Sized>(self) -> (r: IntPtr32<U>)
        ensures
            r == self.spec_cast::<U>(),
            r.addr() == self.addr(),
    {
        IntPtr32 { address: self.address, phantom_data: PhantomData }
    }

    /// Offsets the address to a field `offset` bytes further on and casts
    /// to the field's type.
    pub fn field<U: ?Sized>(self, offset: u32) -> (r: IntPtr32<U>)
        requires
            self.addr() + offset <= u32::MAX,
        ensures
            r == self.spec_field::<U>(offset),
            r.addr() == self.addr() + offset,
    {
        let address: u32 = self.address + offset;
        IntPtr32 { address, phantom_data: PhantomData }
    }

    /// Offsets the address by a signed byte delta and casts. The sum wraps
    /// modulo `2^32` and never traps, even at the boundary.
    pub fn offset<U: ?Sized>(self, offset: i32) -> (r: IntPtr32<U>)
        ensures
            r == self.spec_offset::<U>(offset),
            r.addr() == (self.addr() + offset) % 0x1_0000_0000,
    {
        let address: u32 = self.address.wrapping_add_signed(offset);
        proof {
            lemma_wrap_is_mod(self.addr(), offset);
        }
        IntPtr32 { address, phantom_data: PhantomData }
    }

    /// Returns the raw integer, type ascription helper.
    pub fn into_raw(self) -> (r: u32)
        ensures
            r == self.addr(),
    {
        self.address
    }

    /// Formats the address in the fixed width of [`spec_fmt`].
    pub fn fmt(self) -> (r: [u8; 10])
        ensures
            r@ == spec_fmt(self.addr()),
    {
        let n = nibbles(self.address);
        let r: [u8; 10] = [
            48,
            120,
            digit(n[0]),
            digit(n[1]),
            digit(n[2]),
            digit(n[3]),
            digit(n[4]),
            digit(n[5]),
            digit(n[6]),
            digit(n[7]),
        ];
        proof {
            assert(r@ =~= spec_fmt(self.addr()));
        }
        r
    }

    /// Renders the address for display: `0x0` for null, the zero-padded
    /// ten-byte form otherwise.
    pub fn display_bytes(self) -> (r: Vec<u8>)
        ensures
            r@ == spec_display(self.addr()),
    {
        if self.is_null() {
            let r: Vec<u8> = vec![48, 120, 48];
            proof {
                assert(r@ =~= spec_display(self.addr()));
            }
            r
        } else {
            let b = self.fmt();
            let r: Vec<u8> = vec![b[0], b[1], b[2], b[3], b[4], b[5], b[6], b[7], b[8], b[9]];
            proof {
                assert(r@ =~= spec_display(self.addr()));
            }
            r
        }
    }

    /// Creates an address from a native-width `usize` value; bits above
    /// the 32-bit width are discarded.
    pub fn from_usize(address: usize) -> (r: IntPtr32<T>)
        ensures
            r.addr() == address as u32,
    {
        Self::from_raw(#[verifier::truncate] (address as u32))
    }

    /// Returns the address as a native-width `usize` value.
    pub fn into_usize(self) -> (r: usize)
        ensures
            r == self.addr() as usize,
    {
        self.address as usize
    }
}

impl<T> IntPtr32<T> {
    /// The address moved forward by a count of `T`-sized elements, as
    /// [`IntPtr32::add`] returns it.
    pub closed spec fn spec_add(self, count: usize) -> IntPtr32<T>
        recommends
            self.addr() + count * size_of::<T>() <= u32::MAX,
    {
        IntPtr32 {
            address: (self.addr() + count * size_of::<T>()) as u32,
            phantom_data: PhantomData,
        }
    }

    /// The address moved back by a count of `T`-sized elements, as
    /// [`IntPtr32::sub`] returns it.
    pub closed spec fn spec_sub(self, count: usize) -> IntPtr32<T>
        recommends
            count * size_of::<T>() <= self.addr(),
    {
        IntPtr32 {
            address: (self.addr() - count * size_of::<T>()) as u32,
            phantom_data: PhantomData,
        }
    }

    /// Element arithmetic: moves the address forward by `count` elements
    /// of the pointee type. The count is in elements, not bytes; a result
    /// past the 32-bit width is left out of the domain rather than
    /// wrapped, unlike [`IntPtr32::offset`].
    pub fn add(self, count: usize) -> (r: IntPtr32<T>)
        requires
            self.addr() + count * size_of::<T>() <= u32::MAX,
        ensures
            r == self.spec_add(count),
            r.addr() == self.addr() + count * size_of::<T>(),
    {
        let bytes: usize = count * core::mem::size_of::<T>();
        let address: u32 = self.address + bytes as u32;
        IntPtr32 { address, phantom_data: PhantomData }
    }

    /// Element arithmetic: moves the address back by `count` elements of
    /// the pointee type. An underflow below zero is left out of the
    /// domain rather than wrapped, unlike [`IntPtr32::offset`].
    pub fn sub(self, count: usize) -> (r: IntPtr32<T>)
        requires
            count * size_of::<T>() <= self.addr(),
        ensures
            r == self.spec_sub(count),
            r.addr() == self.addr() - count * size_of::<T>(),
    {
        let bytes: usize = count * core::mem::size_of::<T>();
        let address: u32 = self.address - bytes as u32;
        IntPtr32 { address, phantom_data: PhantomData }
    }
}

impl<T> IntPtr32<[T]> {
    /// The slice pointee stripped to one element, as [`IntPtr32::decay`]
    /// returns it.
    pub closed spec fn spec_decay(self) -> IntPtr32<T> {
        IntPtr32 { address: self.addr(), phantom_data: PhantomData }
    }

    /// Decays the pointee from `[T]` to `T`, keeping the address fixed.
    pub fn decay(self) -> (r: IntPtr32<T>)
        ensures
            r == self.spec_decay(),
            r.addr() == self.addr(),
    {
        IntPtr32 { address: self.address, phantom_data: PhantomData }
    }

    /// Gets the address of the element at index `i`: the base moved
    /// forward by `i` times the element stride.
    pub fn at(self, i: usize) -> (r: IntPtr32<T>)
        requires
            self.addr() + i * size_of::<T>() <= u32::MAX,
        ensures
            r == self.spec_decay().spec_add(i),
            r.addr() == self.addr() + i * size_of::<T>(),
    {
        self.decay().add(i)
    }
}

impl<T, const N: usize> IntPtr32<[T; N]> {
    /// The array pointee stripped to one element, as [`IntPtr32::decay`]
    /// returns it.
    pub closed spec fn spec_decay(self) -> IntPtr32<T> {
        IntPtr32 { address: self.addr(), phantom_data: PhantomData }
    }

    /// Decays the pointee from `[T; N]` to `T`, keeping the address fixed.
    pub fn decay(self) -> (r: IntPtr32<T>)
        ensures
            r == self.spec_decay(),
            r.addr() == self.addr(),
    {
        IntPtr32 { address: self.address, phantom_data: PhantomData }
    }

    /// Gets the address of the element at index `i`: the base moved
    /// forward by `i` times the element stride.
    pub fn at(self, i: usize) -> (r: IntPtr32<T>)
        requires
            self.addr() + i * size_of::<T>() <= u32::MAX,
        ensures
            r == self.spec_decay().spec_add(i),
            r.addr() == self.addr() + i * size_of::<T>(),
    {
        self.decay().add(i)
    }
}

impl<T: ?Sized> Clone for IntPtr32<T> {
    /// A copy of the address; the value is plain data.
    fn clone(&self) -> (r: IntPtr32<T>)
        ensures
            r == *self,
    {
        IntPtr32 { address: self.address, phantom_data: PhantomData }
    }
}

impl<T: ?Sized> Copy for IntPtr32<T> {}

impl<T: ?Sized> PartialEq for IntPtr32<T> {
    /// Equality is by address value alone; the pointee type plays no role.
    fn eq(&self, rhs: &IntPtr32<T>) -> (r: bool) {
        self.address == rhs.address
    }
}

impl<T: ?Sized> Eq for IntPtr32<T> {}

impl<T: ?Sized> vstd::std_specs::cmp::PartialEqSpecImpl for IntPtr32<T> {
    open spec fn obeys_eq_spec() -> bool {
        true
    }

    open spec fn eq_spec(&self, rhs: &IntPtr32<T>) -> bool {
        self.addr() == rhs.addr()
    }
}

impl<T: ?Sized> PartialOrd for IntPtr32<T> {
    /// Ordering is by address value alone; the pointee type plays no role.
    fn partial_cmp(&self, rhs: &IntPtr32<T>) -> (r: Option<Ordering>) {
        if self.address < rhs.address {
            Some(Ordering::Less)
        } else if self.address > rhs.address {
            Some(Ordering::Greater)
        } else {
            Some(Ordering::Equal)
        }
    }
}

impl<T: ?Sized> vstd::std_specs::cmp::PartialOrdSpecImpl for IntPtr32<T> {
    open spec fn obeys_partial_cmp_spec() -> bool {
        true
    }

    open spec fn partial_cmp_spec(&self, rhs: &IntPtr32<T>) -> Option<Ordering> {
        if self.addr() < rhs.addr() {
            Some(Ordering::Less)
        } else if self.addr() > rhs.addr() {
            Some(Ordering::Greater)
        } else {
            Some(Ordering::Equal)
        }
    }
}

impl<T: ?Sized> From<IntPtr32<T>> for u32 {
    /// Extracts the raw address value, as [`IntPtr32::into_raw`] does.
    fn from(ptr: IntPtr32<T>) -> (r: u32) {
        ptr.into_raw()
    }
}

impl<T: ?Sized> vstd::std_specs::convert::FromSpecImpl<IntPtr32<T>> for u32 {
    open spec fn obeys_from_spec() -> bool {
        true
    }

    open spec fn from_spec(ptr: IntPtr32<T>) -> u32 {
        ptr.addr()
    }
}

impl<T: ?Sized> Default for IntPtr32<T> {
    /// The default address is null.
    fn default() -> (r: IntPtr32<T>)
        ensures
            r.addr() == 0,
    {
        IntPtr32::new()
    }
}

impl<T: ?Sized> From<u32> for IntPtr32<T> {
    /// Wraps a raw address value, as [`IntPtr32::from_raw`] does.
    fn from(address: u32) -> (r: IntPtr32<T>) {
        IntPtr32::from_raw(address)
    }
}

impl<T: ?Sized> vstd::std_specs::convert::FromSpecImpl<u32> for IntPtr32<T> {
    open spec fn obeys_from_spec() -> bool {
        true
    }

    open spec fn from_spec(address: u32) -> IntPtr32<T> {
        IntPtr32::spec_from_raw(address)
    }
}

proof fn lemma_wrap_is_mod(a: u32, d: i32)
    ensures
        vstd::wrapping::u32_specs::wrapping_add_signed(a, d) == ((a + d) % 0x1_0000_0000) as u32,
{
    let s = a + d;
    if s > u32::MAX {
        assert(s % 0x1_0000_0000 == s - 0x1_0000_0000) by {
            vstd::arithmetic::div_mod::lemma_mod_sub_multiples_vanish(s, 0x1_0000_0000);
            vstd::arithmetic::div_mod::lemma_small_mod((s - 0x1_0000_0000) as nat, 0x1_0000_0000);
        };
    } else if s < 0 {
        assert(s % 0x1_0000_0000 == s + 0x1_0000_0000) by {
            vstd::arithmetic::div_mod::lemma_mod_add_multiples_vanish(s, 0x1_0000_0000);
            vstd::arithmetic::div_mod::lemma_small_mod((s + 0x1_0000_0000) as nat, 0x1_0000_0000);
        };
    } else {
        assert(s % 0x1_0000_0000 == s) by {
            vstd::arithmetic::div_mod::lemma_small_mod(s as nat, 0x1_0000_0000);
        };
    }
}

/// Law: wrapping a raw value and reading it back yields the same integer.
pub proof fn lemma_raw_round_trip<T: ?Sized>(v: u32)
    ensures
        IntPtr32::<T>::spec_from_raw(v).addr() == v,
{
}

/// Law: an address is null exactly when its raw value is zero.
pub proof fn lemma_null_iff_zero<T: ?Sized>(p: IntPtr32<T>)
    ensures
        p.spec_is_null() == (p.addr() == 0),
{
}

/// Law: casting the pointee type preserves the address bits.
pub proof fn lemma_cast_preserves_addr<T: ?Sized, U: ?Sized>(p: IntPtr32<T>)
    ensures
        p.spec_cast::<U>().addr() == p.addr(),
{
}

/// Law: a field address is the base raised by the byte offset.
pub proof fn lemma_field_adds_offset<T: ?Sized, U: ?Sized>(p: IntPtr32<T>, offset: u32)
    requires
        p.addr() + offset <= u32::MAX,
    ensures
        p.spec_field::<U>(offset).addr() == p.addr() + offset,
{
}

/// Law: a byte-delta offset wraps modulo `2^32` for every address and
/// every delta, the boundary included.
pub proof fn lemma_offset_wraps<T: ?Sized, U: ?Sized>(p: IntPtr32<T>, delta: i32)
    ensures
        p.spec_offset::<U>(delta).addr() == (p.addr() + delta) % 0x1_0000_0000,
{
}

/// Law: element arithmetic moves the address by the count times the
/// element stride, where the sum stays in width.
pub proof fn lemma_add_uses_stride<T>(p: IntPtr32<T>, count: usize)
    requires
        p.addr() + count * size_of::<T>() <= u32::MAX,
    ensures
        p.spec_add(count).addr() == p.addr() + count * size_of::<T>(),
{
}

/// Law: indexing a slice-shaped pointee equals taking a field at the
/// element stride: `decay` then element arithmetic lands on the same
/// address as `field` with offset `i * size_of::<T>()`.
pub proof fn lemma_slice_at_is_field<T>(p: IntPtr32<[T]>, i: usize)
    requires
        p.addr() + i * size_of::<T>() <= u32::MAX,
    ensures
        p.spec_decay().spec_add(i) == p.spec_field::<T>((i * size_of::<T>()) as u32),
{
}

/// Law: indexing an array-shaped pointee equals taking a field at the
/// element stride, exactly as for the slice shape.
pub proof fn lemma_array_at_is_field<T, const N: usize>(p: IntPtr32<[T; N]>, i: usize)
    requires
        p.addr() + i * size_of::<T>() <= u32::MAX,
    ensures
        p.spec_decay().spec_add(i) == p.spec_field::<T>((i * size_of::<T>()) as u32),
{
}

} // verus!
