//! The four condition flags and the byte they are packed into.

use vstd::prelude::*;
use vstd::std_specs::convert::FromSpecImpl;
use vstd::std_specs::ops::{BitAndSpecImpl, BitOrSpecImpl, BitXorSpecImpl, NotSpecImpl};

verus! {

/// A set of condition flags as four truth values.
pub struct FlagSet {
    pub zero: bool,
    pub subtract: bool,
    pub half_carry: bool,
    pub carry: bool,
}

impl FlagSet {
    /// The set with no flag in it.
    pub open spec fn none() -> FlagSet {
        FlagSet { zero: false, subtract: false, half_carry: false, carry: false }
    }

    /// The byte that holds the set: ZERO in bit 7, SUBTRACT in bit 6,
    /// HALF_CARRY in bit 5, CARRY in bit 4, and a clear low nibble.
    pub open spec fn byte(self) -> u8 {
        ((if self.zero { 0x80int } else { 0 })
            + (if self.subtract { 0x40int } else { 0 })
            + (if self.half_carry { 0x20int } else { 0 })
            + (if self.carry { 0x10int } else { 0 })) as u8
    }

    /// The set that the high nibble of `n` holds; the low nibble is ignored.
    pub open spec fn of_byte(n: u8) -> FlagSet {
        FlagSet {
            zero: n >= 0x80,
            subtract: n % 0x80 >= 0x40,
            half_carry: n % 0x40 >= 0x20,
            carry: n % 0x20 >= 0x10,
        }
    }

    /// Every flag of `other` is in `self`.
    pub open spec fn contains(self, other: FlagSet) -> bool {
        &&& other.zero ==> self.zero
        &&& other.subtract ==> self.subtract
        &&& other.half_carry ==> self.half_carry
        &&& other.carry ==> self.carry
    }

    /// The flags that are in `self` or in `other`.
    pub open spec fn union(self, other: FlagSet) -> FlagSet {
        FlagSet {
            zero: self.zero || other.zero,
            subtract: self.subtract || other.subtract,
            half_carry: self.half_carry || other.half_carry,
            carry: self.carry || other.carry,
        }
    }

    /// The flags that are in `self` and in `other`.
    pub open spec fn intersection(self, other: FlagSet) -> FlagSet {
        FlagSet {
            zero: self.zero && other.zero,
            subtract: self.subtract && other.subtract,
            half_carry: self.half_carry && other.half_carry,
            carry: self.carry && other.carry,
        }
    }

    /// The flags that are in exactly one of `self` and `other`.
    pub open spec fn toggle(self, other: FlagSet) -> FlagSet {
        FlagSet {
            zero: self.zero != other.zero,
            subtract: self.subtract != other.subtract,
            half_carry: self.half_carry != other.half_carry,
            carry: self.carry != other.carry,
        }
    }

    /// The flags that are not in `self`.
    pub open spec fn complement(self) -> FlagSet {
        FlagSet {
            zero: !self.zero,
            subtract: !self.subtract,
            half_carry: !self.half_carry,
            carry: !self.carry,
        }
    }

    /// `self` with the flags of `other` put in (`value` true) or taken out.
    pub open spec fn with(self, other: FlagSet, value: bool) -> FlagSet {
        if value {
            self.union(other)
        } else {
            self.intersection(other.complement())
        }
    }
}

/// Reading a byte as flags and packing them again clears the low nibble and
/// keeps the high one.
pub proof fn lemma_byte_of_byte(n: u8)
    ensures
        FlagSet::of_byte(n).byte() == n - n % 16,
{
    lemma_high_nibble(n);
}

proof fn lemma_high_nibble(n: u8)
    by (bit_vector)
    ensures
        (if n >= 0x80 { 0x80int } else { 0 }) + (if n % 0x80 >= 0x40 { 0x40int } else { 0 }) + (if n
            % 0x40 >= 0x20 { 0x20int } else { 0 }) + (if n % 0x20 >= 0x10 { 0x10int } else { 0 })
            == n - n % 16,
{
}

/// Packing flags into a byte and reading it gives the flags back.
pub proof fn lemma_of_byte_byte(set: FlagSet)
    ensures
        FlagSet::of_byte(set.byte()) == set,
        set.byte() % 16 == 0,
{
}

/// A set of condition flags packed into the high nibble of a byte.
#[derive(Clone, Copy, Debug, PartialEq, Eq, Structural)]
pub struct Flags {
    bits: u8,
}

impl View for Flags {
    type V = FlagSet;

    closed spec fn view(&self) -> FlagSet {
        FlagSet::of_byte(self.bits)
    }
}

proof fn lemma_bits(n: u8)
    by (bit_vector)
    ensures
        (n >= 0x80) == (n & 0x80 != 0),
        (n % 0x80 >= 0x40) == (n & 0x40 != 0),
        (n % 0x40 >= 0x20) == (n & 0x20 != 0),
        (n % 0x20 >= 0x10) == (n & 0x10 != 0),
        (n & 0x0f == 0) == (n % 16 == 0),
        (n & 0xf0) == n - n % 16,
{
}

impl Flags {
    #[verifier::type_invariant]
    spec fn low_nibble_clear(self) -> bool {
        self.bits % 16 == 0
    }

    /// The value that holds exactly the flags of `set`.
    pub closed spec fn of(set: FlagSet) -> Flags {
        Flags { bits: set.byte() }
    }

    /// `of` is the inverse of the view.
    pub proof fn lemma_of_view(set: FlagSet)
        ensures
            Flags::of(set)@ == set,
    {
    }

    /// No flag.
    pub fn empty() -> (f: Flags)
        ensures
            f@ == FlagSet::none(),
    {
        Flags { bits: 0 }
    }

    /// The ZERO flag alone.
    pub fn zero() -> (f: Flags)
        ensures
            f@ == (FlagSet { zero: true, ..FlagSet::none() }),
    {
        Flags { bits: 0b1000_0000 }
    }

    /// The SUBTRACT flag alone.
    pub fn subtract() -> (f: Flags)
        ensures
            f@ == (FlagSet { subtract: true, ..FlagSet::none() }),
    {
        Flags { bits: 0b0100_0000 }
    }

    /// The HALF_CARRY flag alone.
    pub fn half_carry() -> (f: Flags)
        ensures
            f@ == (FlagSet { half_carry: true, ..FlagSet::none() }),
    {
        Flags { bits: 0b0010_0000 }
    }

    /// The CARRY flag alone.
    pub fn carry() -> (f: Flags)
        ensures
            f@ == (FlagSet { carry: true, ..FlagSet::none() }),
    {
        Flags { bits: 0b0001_0000 }
    }

    /// The byte that holds the flags; its low nibble is clear.
    pub fn bits(&self) -> (b: u8)
        ensures
            b == self@.byte(),
    {
        proof {
            use_type_invariant(self);
            lemma_byte_of_byte(self.bits);
        }
        self.bits
    }

    /// The flags in the high nibble of `n`; the low nibble is dropped.
    pub fn from_bits_truncate(n: u8) -> (f: Flags)
        ensures
            f@ == FlagSet::of_byte(n),
            f == Flags::of(FlagSet::of_byte(n)),
    {
        proof {
            lemma_bits(n);
            lemma_bits(n & 0xf0);
            lemma_byte_of_byte(n);
            lemma_mask(n);
        }
        Flags { bits: n & 0xf0 }
    }

    /// Whether every flag of `other` is set in `self`.
    pub fn contains(&self, other: Flags) -> (r: bool)
        ensures
            r == self@.contains(other@),
    {
        proof {
            use_type_invariant(self);
            use_type_invariant(other);
            lemma_contains(self.bits, other.bits);
        }
        (self.bits & other.bits) == other.bits
    }
}

proof fn lemma_mask(n: u8)
    by (bit_vector)
    ensures
        (n & 0xf0) & 0x80 == n & 0x80,
        (n & 0xf0) & 0x40 == n & 0x40,
        (n & 0xf0) & 0x20 == n & 0x20,
        (n & 0xf0) & 0x10 == n & 0x10,
        (n & 0xf0) & 0x0f == 0,
{
}

proof fn lemma_contains(a: u8, b: u8)
    by (bit_vector)
    requires
        a % 16 == 0,
        b % 16 == 0,
    ensures
        (a & b == b) == ((b >= 0x80 ==> a >= 0x80) && (b % 0x80 >= 0x40 ==> a % 0x80 >= 0x40)
            && (b % 0x40 >= 0x20 ==> a % 0x40 >= 0x20) && (b % 0x20 >= 0x10 ==> a % 0x20
            >= 0x10)),
{
}

proof fn lemma_or(a: u8, b: u8)
    by (bit_vector)
    ensures
        (a | b) & 0x80 != 0 <==> a & 0x80 != 0 || b & 0x80 != 0,
        (a | b) & 0x40 != 0 <==> a & 0x40 != 0 || b & 0x40 != 0,
        (a | b) & 0x20 != 0 <==> a & 0x20 != 0 || b & 0x20 != 0,
        (a | b) & 0x10 != 0 <==> a & 0x10 != 0 || b & 0x10 != 0,
        a & 0x0f == 0 && b & 0x0f == 0 ==> (a | b) & 0x0f == 0,
{
}

proof fn lemma_and(a: u8, b: u8)
    by (bit_vector)
    ensures
        (a & b) & 0x80 != 0 <==> a & 0x80 != 0 && b & 0x80 != 0,
        (a & b) & 0x40 != 0 <==> a & 0x40 != 0 && b & 0x40 != 0,
        (a & b) & 0x20 != 0 <==> a & 0x20 != 0 && b & 0x20 != 0,
        (a & b) & 0x10 != 0 <==> a & 0x10 != 0 && b & 0x10 != 0,
        a & 0x0f == 0 ==> (a & b) & 0x0f == 0,
{
}

proof fn lemma_xor(a: u8, b: u8)
    by (bit_vector)
    ensures
        (a ^ b) & 0x80 != 0 <==> (a & 0x80 != 0) != (b & 0x80 != 0),
        (a ^ b) & 0x40 != 0 <==> (a & 0x40 != 0) != (b & 0x40 != 0),
        (a ^ b) & 0x20 != 0 <==> (a & 0x20 != 0) != (b & 0x20 != 0),
        (a ^ b) & 0x10 != 0 <==> (a & 0x10 != 0) != (b & 0x10 != 0),
        a & 0x0f == 0 && b & 0x0f == 0 ==> (a ^ b) & 0x0f == 0,
{
}

proof fn lemma_not(a: u8)
    by (bit_vector)
    ensures
        (!a & 0xf0) & 0x80 != 0 <==> a & 0x80 == 0,
        (!a & 0xf0) & 0x40 != 0 <==> a & 0x40 == 0,
        (!a & 0xf0) & 0x20 != 0 <==> a & 0x20 == 0,
        (!a & 0xf0) & 0x10 != 0 <==> a & 0x10 == 0,
        (!a & 0xf0) & 0x0f == 0,
{
}

/// The value whose bits are `bits` is the one that `of` makes from its view.
proof fn lemma_of_bits(f: Flags)
    requires
        f.bits % 16 == 0,
    ensures
        f == Flags::of(f@),
{
    lemma_byte_of_byte(f.bits);
}

impl core::ops::BitOr for Flags {
    type Output = Flags;

    /// The flags that are in either operand.
    fn bitor(self, rhs: Flags) -> (r: Flags)
        ensures
            r@ == self@.union(rhs@),
    {
        proof {
            use_type_invariant(self);
            use_type_invariant(rhs);
            lemma_or(self.bits, rhs.bits);
            lemma_bits(self.bits);
            lemma_bits(rhs.bits);
            lemma_bits(self.bits | rhs.bits);
        }
        let r = Flags { bits: self.bits | rhs.bits };
        proof {
            lemma_of_bits(r);
        }
        r
    }
}

impl BitOrSpecImpl for Flags {
    open spec fn obeys_bitor_spec() -> bool {
        true
    }

    open spec fn bitor_req(self, rhs: Flags) -> bool {
        true
    }

    open spec fn bitor_spec(self, rhs: Flags) -> Flags {
        Flags::of(self@.union(rhs@))
    }
}

impl core::ops::BitAnd for Flags {
    type Output = Flags;

    /// The flags that are in both operands.
    fn bitand(self, rhs: Flags) -> (r: Flags)
        ensures
            r@ == self@.intersection(rhs@),
    {
        proof {
            use_type_invariant(self);
            use_type_invariant(rhs);
            lemma_and(self.bits, rhs.bits);
            lemma_bits(self.bits);
            lemma_bits(rhs.bits);
            lemma_bits(self.bits & rhs.bits);
        }
        let r = Flags { bits: self.bits & rhs.bits };
        proof {
            lemma_of_bits(r);
        }
        r
    }
}

impl BitAndSpecImpl for Flags {
    open spec fn obeys_bitand_spec() -> bool {
        true
    }

    open spec fn bitand_req(self, rhs: Flags) -> bool {
        true
    }

    open spec fn bitand_spec(self, rhs: Flags) -> Flags {
        Flags::of(self@.intersection(rhs@))
    }
}

impl core::ops::BitXor for Flags {
    type Output = Flags;

    /// The flags that are in exactly one operand.
    fn bitxor(self, rhs: Flags) -> (r: Flags)
        ensures
            r@ == self@.toggle(rhs@),
    {
        proof {
            use_type_invariant(self);
            use_type_invariant(rhs);
            lemma_xor(self.bits, rhs.bits);
            lemma_bits(self.bits);
            lemma_bits(rhs.bits);
            lemma_bits(self.bits ^ rhs.bits);
        }
        let r = Flags { bits: self.bits ^ rhs.bits };
        proof {
            lemma_of_bits(r);
        }
        r
    }
}

impl BitXorSpecImpl for Flags {
    open spec fn obeys_bitxor_spec() -> bool {
        true
    }

    open spec fn bitxor_req(self, rhs: Flags) -> bool {
        true
    }

    open spec fn bitxor_spec(self, rhs: Flags) -> Flags {
        Flags::of(self@.toggle(rhs@))
    }
}

impl core::ops::Not for Flags {
    type Output = Flags;

    /// The flags that are not in the operand.
    fn not(self) -> (r: Flags)
        ensures
            r@ == self@.complement(),
    {
        proof {
            lemma_not(self.bits);
            lemma_bits(self.bits);
            lemma_bits(!self.bits & 0xf0);
        }
        let r = Flags { bits: !self.bits & 0xf0 };
        proof {
            lemma_of_bits(r);
        }
        r
    }
}

impl NotSpecImpl for Flags {
    open spec fn obeys_not_spec() -> bool {
        true
    }

    open spec fn not_req(self) -> bool {
        true
    }

    open spec fn not_spec(self) -> Flags {
        Flags::of(self@.complement())
    }
}

impl From<u8> for Flags {
    /// The flags in the high nibble of `n`.
    fn from(n: u8) -> (f: Flags)
        ensures
            f@ == FlagSet::of_byte(n),
    {
        Flags::from_bits_truncate(n)
    }
}

impl FromSpecImpl<u8> for Flags {
    open spec fn obeys_from_spec() -> bool {
        true
    }

    open spec fn from_spec(n: u8) -> Flags {
        Flags::of(FlagSet::of_byte(n))
    }
}

impl From<Flags> for u8 {
    /// The byte that holds the flags.
    fn from(flags: Flags) -> (n: u8)
    {
        flags.bits()
    }
}

impl FromSpecImpl<Flags> for u8 {
    open spec fn obeys_from_spec() -> bool {
        true
    }

    open spec fn from_spec(flags: Flags) -> u8 {
        flags@.byte()
    }
}

} // verus!
