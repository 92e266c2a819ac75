use vstd::prelude::*;
use vstd::layout::size_of;
use core::marker::PhantomData;
use core::cmp::Ordering;

verus! {

/// The byte `'0'..'9'` or `'a'..'f'` standing for a nibble value.
pub open spec fn spec_hex_digit(nibble: u8) -> u8
    recommends
        nibble < 16,
{
    if nibble < 10 {
        (48 + nibble) as u8
    } else {
        (87 + nibble) as u8
    }
}

/// The sixteen nibbles of a 64-bit word, most significant first.
pub open spec fn spec_nibbles(word: u64) -> Seq<u8> {
    seq![
        ((word >> 60u64) % 16) as u8,
        ((word >> 56u64) % 16) as u8,
        ((word >> 52u64) % 16) as u8,
        ((word >> 48u64) % 16) as u8,
        ((word >> 44u64) % 16) as u8,
        ((word >> 40u64) % 16) as u8,
        ((word >> 36u64) % 16) as u8,
        ((word >> 32u64) % 16) as u8,
        ((word >> 28u64) % 16) as u8,
        ((word >> 24u64) % 16) as u8,
        ((word >> 20u64) % 16) as u8,
        ((word >> 16u64) % 16) as u8,
        ((word >> 12u64) % 16) as u8,
        ((word >> 8u64) % 16) as u8,
        ((word >> 4u64) % 16) as u8,
        (word % 16) as u8,
    ]
}

/// The fixed-width rendering of a 64-bit address: `0x` and sixteen
/// zero-padded lowercase hex digits, eighteen bytes in all. At this width
/// the null address gets no short form: every value renders in full.
pub open spec fn spec_fmt(word: u64) -> Seq<u8> {
    seq![48u8, 120u8] + spec_nibbles(word).map_values(|n: u8| spec_hex_digit(n))
}

fn nibbles(word: u64) -> (r: [u8; 16])
    ensures
        r@ == spec_nibbles(word),
{
    let r: [u8; 16] = [
        ((word >> 60) % 16) as u8,
        ((word >> 56) % 16) as u8,
        ((word >> 52) % 16) as u8,
        ((word >> 48) % 16) as u8,
        ((word >> 44) % 16) as u8,
        ((word >> 40) % 16) as u8,
        ((word >> 36) % 16) as u8,
        ((word >> 32) % 16) as u8,
        ((word >> 28) % 16) as u8,
        ((word >> 24) % 16) as u8,
        ((word >> 20) % 16) as u8,
        ((word >> 16) % 16) as u8,
        ((word >> 12) % 16) as u8,
        ((word >> 8) % 16) as u8,
        ((word >> 4) % 16) as u8,
        (word % 16) as u8,
    ];
    proof {
        assert(r@ =~= spec_nibbles(word));
    }
    r
}

fn digit(nibble: u8) -> (r: u8)
    requires
        nibble < 16,
    ensures
        r == spec_hex_digit(nibble),
{
    if nibble < 10 {
        48 + nibble
    } else {
        87 + nibble
    }
}

/// Unmanaged 64-bit typed address.
///
/// Wraps a `u64` naming a location in a foreign memory space, decorated
/// with a phantom pointee type that occupies no storage. The value is
/// never dereferenced locally.
#[derive(Debug, Hash, Ord)]
pub struct IntPtr64<T: ?Sized = ()> {
    address: u64,
    phantom_data: PhantomData<T>,
}

impl<T: ?Sized> IntPtr64<T> {
    /// The raw address value this typed address stands for.
    pub closed spec fn addr(self) -> u64 {
        self.address
    }

    /// The address built from a raw value, as [`IntPtr64::from_raw`] builds it.
    pub closed spec fn spec_from_raw(address: u64) -> IntPtr64<T> {
        IntPtr64 { address, phantom_data: PhantomData }
    }

    /// True iff the address value is zero.
    pub open spec fn spec_is_null(self) -> bool {
        self.addr() == 0
    }

    /// The same address bits under another pointee type, as
    /// [`IntPtr64::cast`] returns them.
    pub closed spec fn spec_cast<U: ?Sized>(self) -> IntPtr64<U> {
        IntPtr64 { address: self.address, phantom_data: PhantomData }
    }

    /// The address moved forward by a byte offset, as [`IntPtr64::field`]
    /// returns it.
    pub closed spec fn spec_field<U: ?Sized>(self, offset: u32) -> IntPtr64<U>
        recommends
            self.addr() + offset <= u64::MAX,
    {
        IntPtr64 { address: (self.addr() + offset) as u64, phantom_data: PhantomData }
    }

    /// The address moved by a signed byte delta, wrapping modulo `2^64`,
    /// as [`IntPtr64::offset`] returns it.
    pub closed spec fn spec_offset<U: ?Sized>(self, delta: i64) -> IntPtr64<U> {
        IntPtr64 {
            address: ((self.addr() + delta) % 0x1_0000_0000_0000_0000) as u64,
            phantom_data: PhantomData,
        }
    }

    /// Creates a null address.
    pub fn new() -> (r: IntPtr64<T>)
        ensures
            r.addr() == 0,
            r == Self::spec_from_raw(0),
    {
        IntPtr64 { address: 0, phantom_data: PhantomData }
    }

    /// Creates an address from its raw integer value; any bit pattern is a
    /// legal foreign address, zero included.
    pub fn from_raw(address: u64) -> (r: IntPtr64<T>)
        ensures
            r.addr() == address,
            r == Self::spec_from_raw(address),
    {
        IntPtr64 { address, phantom_data: PhantomData }
    }

    /// Constructs the address of a member at `offset` bytes past `address`.
    pub fn member(address: u64, offset: u32) -> (r: IntPtr64<T>)
        requires
            address + offset <= u64::MAX,
        ensures
            r.addr() == address + offset,
    {
        let address: u64 = address + offset as u64;
        IntPtr64 { address, phantom_data: PhantomData }
    }

    /// Returns true if the address is null.
    pub fn is_null(self) -> (r: bool)
        ensures
            r == self.spec_is_null(),
    {
        self.address == 0
    }

    /// Casts the address to a different pointee type, keeping the address
    /// value fixed.
    pub fn cast<U: ?Sized>(self) -> (r: IntPtr64<U>)
        ensures
            r == self.spec_cast::<U>(),
            r.addr() == self.addr(),
    {
        IntPtr64 { address: self.address, phantom_data: PhantomData }
    }

    /// Offsets the address to a field `offset` bytes further on and casts
    /// to the field's type.
    pub fn field<U: ?Sized>(self, offset: u32) -> (r: IntPtr64<U>)
        requires
            self.addr() + offset <= u64::MAX,
        ensures
            r == self.spec_field::<U>(offset),
            r.addr() == self.addr() + offset,
    {
        let address: u64 = self.address + offset as u64;
        IntPtr64 { address, phantom_data: PhantomData }
    }

    /// Offsets the address by a signed byte delta and casts. The sum wraps
    /// modulo `2^64` and never traps, even at the boundary.
    pub fn offset<U: ?Sized>(self, offset: i64) -> (r: IntPtr64<U>)
        ensures
            r == self.spec_offset::<U>(offset),
            r.addr() == (self.addr() + offset) % 0x1_0000_0000_0000_0000,
    {
        let address: u64 = self.address.wrapping_add_signed(offset);
        proof {
            lemma_wrap_is_mod(self.addr(), offset);
        }
        IntPtr64 { address, phantom_data: PhantomData }
    }

    /// Returns the raw integer, type ascription helper.
    pub fn into_raw(self) -> (r: u64)
        ensures
            r == self.addr(),
    {
        self.address
    }

    /// Formats the address in the fixed width of [`spec_fmt`].
    pub fn fmt(self) -> (r: [u8; 18])
        ensures
            r@ == spec_fmt(self.addr()),
    {
        let n = nibbles(self.address);
        let r: [u8; 18] = [
            48,
            120,
            digit(n[0]),
            digit(n[1]),
            digit(n[2]),
            digit(n[3]),
            digit(n[4]),
            digit(n[5]),
            digit(n[6]),
            digit(n[7]),
            digit(n[8]),
            digit(n[9]),
            digit(n[10]),
            digit(n[11]),
            digit(n[12]),
            digit(n[13]),
            digit(n[14]),
            digit(n[15]),
        ];
        proof {
            assert(r@ =~= spec_fmt(self.addr()));
        }
        r
    }

    /// Renders the address for display. At this width every value takes
    /// the full zero-padded eighteen-byte form, the null address included.
    pub fn display_bytes(self) -> (r: Vec<u8>)
        ensures
            r@ == spec_fmt(self.addr()),
    {
        let b = self.fmt();
        let r: Vec<u8> = vec![
            b[0],
            b[1],
            b[2],
            b[3],
            b[4],
            b[5],
            b[6],
            b[7],
            b[8],
            b[9],
            b[10],
            b[11],
            b[12],
            b[13],
            b[14],
            b[15],
            b[16],
            b[17],
        ];
        proof {
            assert(r@ =~= spec_fmt(self.addr()));
        }
        r
    }

    /// Creates an address from a native-width `usize` value, zero-extended.
    pub fn from_usize(address: usize) -> (r: IntPtr64<T>)
        ensures
            r.addr() == address as u64,
    {
        Self::from_raw(address as u64)
    }

    /// Returns the address as a native-width `usize` value; bits above the
    /// native width are discarded.
    pub fn into_usize(self) -> (r: usize)
        ensures
            r == self.addr() as usize,
    {
        #[verifier::truncate] (self.address as usize)
    }
}

impl<T> IntPtr64<T> {
    /// The address moved forward by a count of `T`-sized elements, as
    /// [`IntPtr64::add`] returns it.
    pub closed spec fn spec_add(self, count: usize) -> IntPtr64<T>
        recommends
            self.addr() + count * size_of::<T>() <= u64::MAX,
    {
        IntPtr64 {
            address: (self.addr() + count * size_of::<T>()) as u64,
            phantom_data: PhantomData,
        }
    }

    /// The address moved back by a count of `T`-sized elements, as
    /// [`IntPtr64::sub`] returns it.
    pub closed spec fn spec_sub(self, count: usize) -> IntPtr64<T>
        recommends
            count * size_of::<T>() <= self.addr(),
    {
        IntPtr64 {
            address: (self.addr() - count * size_of::<T>()) as u64,
            phantom_data: PhantomData,
        }
    }

    /// Element arithmetic: moves the address forward by `count` elements
    /// of the pointee type. The count is in elements, not bytes; a result
    /// past the 64-bit width is left out of the domain rather than
    /// wrapped, unlike [`IntPtr64::offset`].
    pub fn add(self, count: usize) -> (r: IntPtr64<T>)
        requires
            count * size_of::<T>() <= usize::MAX,
            self.addr() + count * size_of::<T>() <= u64::MAX,
        ensures
            r == self.spec_add(count),
            r.addr() == self.addr() + count * size_of::<T>(),
    {
        let bytes: usize = count * core::mem::size_of::<T>();
        let address: u64 = self.address + bytes as u64;
        IntPtr64 { address, phantom_data: PhantomData }
    }

    /// Element arithmetic: moves the address back by `count` elements of
    /// the pointee type. An underflow below zero is left out of the
    /// domain rather than wrapped, unlike [`IntPtr64::offset`].
    pub fn sub(self, count: usize) -> (r: IntPtr64<T>)
        requires
            count * size_of::<T>() <= usize::MAX,
            count * size_of::<T>() <= self.addr(),
        ensures
            r == self.spec_sub(count),
            r.addr() == self.addr() - count * size_of::<T>(),
    {
        let bytes: usize = count * core::mem::size_of::<T>();
        let address: u64 = self.address - bytes as u64;
        IntPtr64 { address, phantom_data: PhantomData }
    }
}

impl<T> IntPtr64<[T]> {
    /// The slice pointee stripped to one element, as [`IntPtr64::decay`]
    /// returns it.
    pub closed spec fn spec_decay(self) -> IntPtr64<T> {
        IntPtr64 { address: self.addr(), phantom_data: PhantomData }
    }

    /// Decays the pointee from `[T]` to `T`, keeping the address fixed.
    pub fn decay(self) -> (r: IntPtr64<T>)
        ensures
            r == self.spec_decay(),
            r.addr() == self.addr(),
    {
        IntPtr64 { address: self.address, phantom_data: PhantomData }
    }

    /// Gets the address of the element at index `i`: the base moved
    /// forward by `i` times the element stride.
    pub fn at(self, i: usize) -> (r: IntPtr64<T>)
        requires
            i * size_of::<T>() <= usize::MAX,
            self.addr() + i * size_of::<T>() <= u64::MAX,
        ensures
            r == self.spec_decay().spec_add(i),
            r.addr() == self.addr() + i * size_of::<T>(),
    {
        self.decay().add(i)
    }
}

impl<T: ?Sized> Clone for IntPtr64<T> {
    /// A copy of the address; the value is plain data.
    fn clone(&self) -> (r: IntPtr64<T>)
        ensures
            r == *self,
    {
        IntPtr64 { address: self.address, phantom_data: PhantomData }
    }
}

impl<T: ?Sized> Copy for IntPtr64<T> {}

impl<T: ?Sized> PartialEq for IntPtr64<T> {
    /// Equality is by address value alone; the pointee type plays no role.
    fn eq(&self, rhs: &IntPtr64<T>) -> (r: bool) {
        self.address == rhs.address
    }
}

impl<T: ?Sized> Eq for IntPtr64<T> {}

impl<T: ?Sized> vstd::std_specs::cmp::PartialEqSpecImpl for IntPtr64<T> {
    open spec fn obeys_eq_spec() -> bool {
        true
    }

    open spec fn eq_spec(&self, rhs: &IntPtr64<T>) -> bool {
        self.addr() == rhs.addr()
    }
}

impl<T: ?Sized> PartialOrd for IntPtr64<T> {
    /// Ordering is by address value alone; the pointee type plays no role.
    fn partial_cmp(&self, rhs: &IntPtr64<T>) -> (r: Option<Ordering>) {
        if self.address < rhs.address {
            Some(Ordering::Less)
        } else if self.address > rhs.address {
            Some(Ordering::Greater)
        } else {
            Some(Ordering::Equal)
        }
    }
}

impl<T: ?Sized> vstd::std_specs::cmp::PartialOrdSpecImpl for IntPtr64<T> {
    open spec fn obeys_partial_cmp_spec() -> bool {
        true
    }

    open spec fn partial_cmp_spec(&self, rhs: &IntPtr64<T>) -> Option<Ordering> {
        if self.addr() < rhs.addr() {
            Some(Ordering::Less)
        } else if self.addr() > rhs.addr() {
            Some(Ordering::Greater)
        } else {
            Some(Ordering::Equal)
        }
    }
}

impl<T: ?Sized> From<IntPtr64<T>> for u64 {
    /// Extracts the raw address value, as [`IntPtr64::into_raw`] does.
    fn from(ptr: IntPtr64<T>) -> (r: u64) {
        ptr.into_raw()
    }
}

impl<T: ?Sized> vstd::std_specs::convert::FromSpecImpl<IntPtr64<T>> for u64 {
    open spec fn obeys_from_spec() -> bool {
        true
    }

    open spec fn from_spec(ptr: IntPtr64<T>) -> u64 {
        ptr.addr()
    }
}

impl<T: ?Sized> Default for IntPtr64<T> {
    /// The default address is null.
    fn default() -> (r: IntPtr64<T>)
        ensures
            r.addr() == 0,
    {
        IntPtr64::new()
    }
}

impl<T: ?Sized> From<u64> for IntPtr64<T> {
    /// Wraps a raw address value, as [`IntPtr64::from_raw`] does.
    fn from(address: u64) -> (r: IntPtr64<T>) {
        IntPtr64::from_raw(address)
    }
}

impl<T: ?Sized> vstd::std_specs::convert::FromSpecImpl<u64> for IntPtr64<T> {
    open spec fn obeys_from_spec() -> bool {
        true
    }

    open spec fn from_spec(address: u64) -> IntPtr64<T> {
        IntPtr64::spec_from_raw(address)
    }
}

proof fn lemma_wrap_is_mod(a: u64, d: i64)
    ensures
        vstd::wrapping::u64_specs::wrapping_add_signed(a, d) == ((a + d)
            % 0x1_0000_0000_0000_0000) as u64,
{
    let s = a + d;
    if s > u64::MAX {
        assert(s % 0x1_0000_0000_0000_0000 == s - 0x1_0000_0000_0000_0000) by {
            vstd::arithmetic::div_mod::lemma_mod_sub_multiples_vanish(s, 0x1_0000_0000_0000_0000);
            vstd::arithmetic::div_mod::lemma_small_mod(
                (s - 0x1_0000_0000_0000_0000) as nat,
                0x1_0000_0000_0000_0000,
            );
        };
    } else if s < 0 {
        assert(s % 0x1_0000_0000_0000_0000 == s + 0x1_0000_0000_0000_0000) by {
            vstd::arithmetic::div_mod::lemma_mod_add_multiples_vanish(s, 0x1_0000_0000_0000_0000);
            vstd::arithmetic::div_mod::lemma_small_mod(
                (s + 0x1_0000_0000_0000_0000) as nat,
                0x1_0000_0000_0000_0000,
            );
        };
    } else {
        assert(s % 0x1_0000_0000_0000_0000 == s) by {
            vstd::arithmetic::div_mod::lemma_small_mod(s as nat, 0x1_0000_0000_0000_0000);
        };
    }
}

/// Law: wrapping a raw value and reading it back yields the same integer.
pub proof fn lemma_raw_round_trip<T: ?Sized>(v: u64)
    ensures
        IntPtr64::<T>::spec_from_raw(v).addr() == v,
{
}

/// Law: an address is null exactly when its raw value is zero.
pub proof fn lemma_null_iff_zero<T: ?Sized>(p: IntPtr64<T>)
    ensures
        p.spec_is_null() == (p.addr() == 0),
{
}

/// Law: casting the pointee type preserves the address bits.
pub proof fn lemma_cast_preserves_addr<T: ?Sized, U: ?Sized>(p: IntPtr64<T>)
    ensures
        p.spec_cast::<U>().addr() == p.addr(),
{
}

/// Law: a field address is the base raised by the byte offset.
pub proof fn lemma_field_adds_offset<T: ?Sized, U: ?Sized>(p: IntPtr64<T>, offset: u32)
    requires
        p.addr() + offset <= u64::MAX,
    ensures
        p.spec_field::<U>(offset).addr() == p.addr() + offset,
{
}

/// Law: a byte-delta offset wraps modulo `2^64` for every address and
/// every delta, the boundary included.
pub proof fn lemma_offset_wraps<T: ?Sized, U: ?Sized>(p: IntPtr64<T>, delta: i64)
    ensures
        p.spec_offset::<U>(delta).addr() == (p.addr() + delta) % 0x1_0000_0000_0000_0000,
{
}

/// Law: element arithmetic moves the address by the count times the
/// element stride, where the sum stays in width.
pub proof fn lemma_add_uses_stride<T>(p: IntPtr64<T>, count: usize)
    requires
        p.addr() + count * size_of::<T>() <= u64::MAX,
    ensures
        p.spec_add(count).addr() == p.addr() + count * size_of::<T>(),
{
}

/// Law: indexing a slice-shaped pointee equals taking a field at the
/// element stride: `decay` then element arithmetic lands on the same
/// address as `field` with offset `i * size_of::<T>()`.
pub proof fn lemma_slice_at_is_field<T>(p: IntPtr64<[T]>, i: usize)
    requires
        i * size_of::<T>() <= u32::MAX,
        p.addr() + i * size_of::<T>() <= u64::MAX,
    ensures
        p.spec_decay().spec_add(i) == p.spec_field::<T>((i * size_of::<T>()) as u32),
{
}

} // verus!
