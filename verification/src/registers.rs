//! The register file: seven byte registers and the flags, with their views
//! as the pairs AF, BC, DE and HL.

use vstd::prelude::*;
use core::ops::Not;
use crate::bits::{high_byte, low_byte, pack, pack_u16, unpack_u16};
use crate::flags::{lemma_byte_of_byte, lemma_of_byte_byte, FlagSet, Flags};

verus! {

/// What a register file holds.
pub struct RegisterState {
    pub a: u8,
    pub b: u8,
    pub c: u8,
    pub d: u8,
    pub e: u8,
    pub f: FlagSet,
    pub h: u8,
    pub l: u8,
}

impl RegisterState {
    /// The values that the boot sequence leaves in the registers.
    pub open spec fn power_on() -> RegisterState {
        RegisterState {
            a: 0x01,
            b: 0x00,
            c: 0x13,
            d: 0x00,
            e: 0xD8,
            f: FlagSet { zero: true, subtract: false, half_carry: true, carry: true },
            h: 0x01,
            l: 0x4D,
        }
    }

    /// A over the flag byte.
    pub open spec fn af(self) -> u16 {
        pack(self.a, self.f.byte())
    }

    /// B over C.
    pub open spec fn bc(self) -> u16 {
        pack(self.b, self.c)
    }

    /// D over E.
    pub open spec fn de(self) -> u16 {
        pack(self.d, self.e)
    }

    /// H over L.
    pub open spec fn hl(self) -> u16 {
        pack(self.h, self.l)
    }

    /// The high byte goes to A, the high nibble of the low byte to the flags.
    pub open spec fn with_af(self, value: u16) -> RegisterState {
        RegisterState { a: high_byte(value), f: FlagSet::of_byte(low_byte(value)), ..self }
    }

    pub open spec fn with_bc(self, value: u16) -> RegisterState {
        RegisterState { b: high_byte(value), c: low_byte(value), ..self }
    }

    pub open spec fn with_de(self, value: u16) -> RegisterState {
        RegisterState { d: high_byte(value), e: low_byte(value), ..self }
    }

    pub open spec fn with_hl(self, value: u16) -> RegisterState {
        RegisterState { h: high_byte(value), l: low_byte(value), ..self }
    }
}

/// Writing BC, DE or HL and reading the pair gives the value back.
pub proof fn lemma_pair_round_trip(r: RegisterState, value: u16)
    ensures
        r.with_bc(value).bc() == value,
        r.with_de(value).de() == value,
        r.with_hl(value).hl() == value,
{
}

/// Writing AF and reading it gives the value back without its low four bits.
pub proof fn lemma_af_round_trip(r: RegisterState, value: u16)
    ensures
        r.with_af(value).af() == value - value % 16,
        r.with_af(value).af() % 16 == 0,
{
    lemma_byte_of_byte(low_byte(value));
}

/// Writing a pair with what it reads changes nothing.
pub proof fn lemma_pair_write_back(r: RegisterState)
    ensures
        r.with_af(r.af()) == r,
        r.with_bc(r.bc()) == r,
        r.with_de(r.de()) == r,
        r.with_hl(r.hl()) == r,
{
    lemma_of_byte_byte(r.f);
}

/// The register file.
#[derive(Debug)]
pub struct Registers {
    a: u8,
    b: u8,
    c: u8,
    d: u8,
    e: u8,
    f: Flags,
    h: u8,
    l: u8,
}

impl View for Registers {
    type V = RegisterState;

    closed spec fn view(&self) -> RegisterState {
        RegisterState {
            a: self.a,
            b: self.b,
            c: self.c,
            d: self.d,
            e: self.e,
            f: self.f@,
            h: self.h,
            l: self.l,
        }
    }
}

impl Registers {
    /// A register file in its state after the boot sequence.
    pub fn new() -> (r: Registers)
        ensures
            r@ == RegisterState::power_on(),
    {
        Registers {
            a: 0x01,
            b: 0x00,
            c: 0x13,
            d: 0x00,
            e: 0xD8,
            f: Flags::from_bits_truncate(0xB0),
            h: 0x01,
            l: 0x4D,
        }
    }

    pub fn a(&self) -> (v: u8)
        ensures
            v == self@.a,
    {
        self.a
    }

    pub fn b(&self) -> (v: u8)
        ensures
            v == self@.b,
    {
        self.b
    }

    pub fn c(&self) -> (v: u8)
        ensures
            v == self@.c,
    {
        self.c
    }

    pub fn d(&self) -> (v: u8)
        ensures
            v == self@.d,
    {
        self.d
    }

    pub fn e(&self) -> (v: u8)
        ensures
            v == self@.e,
    {
        self.e
    }

    pub fn f(&self) -> (v: Flags)
        ensures
            v@ == self@.f,
    {
        self.f
    }

    pub fn h(&self) -> (v: u8)
        ensures
            v == self@.h,
    {
        self.h
    }

    pub fn l(&self) -> (v: u8)
        ensures
            v == self@.l,
    {
        self.l
    }

    pub fn set_a(&mut self, value: u8)
        ensures
            final(self)@ == (RegisterState { a: value, ..old(self)@ }),
    {
        self.a = value
    }

    pub fn set_b(&mut self, value: u8)
        ensures
            final(self)@ == (RegisterState { b: value, ..old(self)@ }),
    {
        self.b = value
    }

    pub fn set_c(&mut self, value: u8)
        ensures
            final(self)@ == (RegisterState { c: value, ..old(self)@ }),
    {
        self.c = value
    }

    pub fn set_d(&mut self, value: u8)
        ensures
            final(self)@ == (RegisterState { d: value, ..old(self)@ }),
    {
        self.d = value
    }

    pub fn set_e(&mut self, value: u8)
        ensures
            final(self)@ == (RegisterState { e: value, ..old(self)@ }),
    {
        self.e = value
    }

    pub fn set_f(&mut self, value: Flags)
        ensures
            final(self)@ == (RegisterState { f: value@, ..old(self)@ }),
    {
        self.f = value
    }

    pub fn set_h(&mut self, value: u8)
        ensures
            final(self)@ == (RegisterState { h: value, ..old(self)@ }),
    {
        self.h = value
    }

    pub fn set_l(&mut self, value: u8)
        ensures
            final(self)@ == (RegisterState { l: value, ..old(self)@ }),
    {
        self.l = value
    }

    pub fn af(&self) -> (v: u16)
        ensures
            v == self@.af(),
    {
        pack_u16(self.a, self.f.bits())
    }

    pub fn bc(&self) -> (v: u16)
        ensures
            v == self@.bc(),
    {
        pack_u16(self.b, self.c)
    }

    pub fn de(&self) -> (v: u16)
        ensures
            v == self@.de(),
    {
        pack_u16(self.d, self.e)
    }

    pub fn hl(&self) -> (v: u16)
        ensures
            v == self@.hl(),
    {
        pack_u16(self.h, self.l)
    }

    pub fn set_af(&mut self, value: u16)
        ensures
            final(self)@ == old(self)@.with_af(value),
    {
        let (a, f) = unpack_u16(value);
        self.a = a;
        self.f = Flags::from_bits_truncate(f);
    }

    pub fn set_bc(&mut self, value: u16)
        ensures
            final(self)@ == old(self)@.with_bc(value),
    {
        let (b, c) = unpack_u16(value);
        self.b = b;
        self.c = c;
    }

    pub fn set_de(&mut self, value: u16)
        ensures
            final(self)@ == old(self)@.with_de(value),
    {
        let (d, e) = unpack_u16(value);
        self.d = d;
        self.e = e;
    }

    pub fn set_hl(&mut self, value: u16)
        ensures
            final(self)@ == old(self)@.with_hl(value),
    {
        let (h, l) = unpack_u16(value);
        self.h = h;
        self.l = l;
    }

    /// Whether every flag of `flag` is set.
    pub fn has_flag(&self, flag: Flags) -> (r: bool)
        ensures
            r == self@.f.contains(flag@),
    {
        self.f.contains(flag)
    }

    /// Sets (`value` true) or clears the flags of `flag` and leaves the
    /// others as they are.
    pub fn set_flag(&mut self, flag: Flags, value: bool)
        ensures
            final(self)@ == (RegisterState { f: old(self)@.f.with(flag@, value), ..old(self)@ }),
    {
        if value {
            self.f = self.f | flag
        } else {
            self.f = self.f & flag.not()
        }
    }

    /// Inverts the flags of `flag` and leaves the others as they are.
    pub fn flip_flag(&mut self, flag: Flags)
        ensures
            final(self)@ == (RegisterState { f: old(self)@.f.toggle(flag@), ..old(self)@ }),
    {
        self.f = self.f ^ flag
    }
}

impl Default for Registers {
    fn default() -> (r: Registers)
        ensures
            r@ == RegisterState::power_on(),
    {
        Registers::new()
    }
}

} // verus!
