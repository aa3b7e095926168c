//! The processor status register: eight flag bits packed into one byte.

use vstd::prelude::*;

verus! {

/// Carry flag (bit 0).
pub const CARRY: u8 = 0x01;

/// Zero flag (bit 1).
pub const ZERO: u8 = 0x02;

/// Interrupt-disable flag (bit 2).
pub const INTERRUPT_DISABLE: u8 = 0x04;

/// Decimal-mode flag (bit 3); stored but ignored by arithmetic on the NES.
pub const DECIMAL_MODE: u8 = 0x08;

/// Break flag (bit 4).
pub const BREAK: u8 = 0x10;

/// Unused flag (bit 5); pushed as one by PHP/BRK and forced on by PLP.
pub const UNUSED: u8 = 0x20;

/// Overflow flag (bit 6).
pub const OVERFLOW: u8 = 0x40;

/// Negative flag (bit 7).
pub const NEGATIVE: u8 = 0x80;

/// True when `m` has exactly one bit set, i.e. it names a single flag.
pub open spec fn single_flag(m: u8) -> bool {
    m != 0 && m & ((m - 1) as u8) == 0
}

/// True when every flag of `m` is set in `s`.
pub open spec fn has_flag(s: u8, m: u8) -> bool {
    s & m == m
}

/// `s` with the flags of `m` set when `on` holds and cleared otherwise.
pub open spec fn set_flag(s: u8, m: u8, on: bool) -> u8 {
    if on {
        s | m
    } else {
        s & !m
    }
}

/// `s` with the zero flag tracking `v == 0` and the negative flag tracking
/// bit 7 of `v`; all other flags are untouched.
pub open spec fn nz_flags(s: u8, v: u8) -> u8 {
    set_flag(set_flag(s, ZERO, v == 0), NEGATIVE, v & 0x80 != 0)
}

/// Setting one flag changes exactly that flag: testing the written flag
/// reads back `on`, and testing any other single flag is unchanged.
pub proof fn lemma_set_flag(s: u8, m: u8, on: bool, t: u8)
    by (bit_vector)
    requires
        single_flag(m),
        single_flag(t),
    ensures
        t == m ==> has_flag(set_flag(s, m, on), t) == on,
        t != m ==> has_flag(set_flag(s, m, on), t) == has_flag(s, t),
{
}

/// The eight single-flag masks really are single bits.
pub proof fn lemma_flag_masks_single()
    by (bit_vector)
    ensures
        single_flag(CARRY),
        single_flag(ZERO),
        single_flag(INTERRUPT_DISABLE),
        single_flag(DECIMAL_MODE),
        single_flag(BREAK),
        single_flag(UNUSED),
        single_flag(OVERFLOW),
        single_flag(NEGATIVE),
{
}

/// The zero and negative flags written by `nz_flags` depend on the value
/// alone, not on the rest of the status byte, and writing them twice
/// changes nothing: the update is idempotent.
pub proof fn lemma_nz_flags(s: u8, v: u8)
    by (bit_vector)
    ensures
        has_flag(nz_flags(s, v), ZERO) == (v == 0),
        has_flag(nz_flags(s, v), NEGATIVE) == (v & 0x80 != 0),
        nz_flags(nz_flags(s, v), v) == nz_flags(s, v),
{
}

/// The status register: a transparent wrapper over the packed flag byte.
#[derive(Clone, Copy, Debug, PartialEq, Eq, Structural)]
pub struct Status {
    pub bits: u8,
}

impl View for Status {
    type V = u8;

    open spec fn view(&self) -> u8 {
        self.bits
    }
}

impl Status {
    /// A status with no flag set.
    pub fn empty() -> (r: Status)
        ensures
            r@ == 0u8,
    {
        Status { bits: 0 }
    }

    /// Builds a status from a raw byte; every bit is a defined flag, so
    /// nothing is dropped.
    pub fn from_bits_truncate(bits: u8) -> (r: Status)
        ensures
            r@ == bits,
    {
        Status { bits }
    }

    /// The raw flag byte.
    pub fn bits(&self) -> (r: u8)
        ensures
            r == self@,
    {
        self.bits
    }

    /// True when every flag of `mask` is set.
    pub fn contains(&self, mask: u8) -> (r: bool)
        ensures
            r == has_flag(self@, mask),
    {
        self.bits & mask == mask
    }

    /// Sets every flag of `mask`.
    pub fn insert(&mut self, mask: u8)
        ensures
            final(self)@ == (old(self)@ | mask),
    {
        self.bits = self.bits | mask;
    }

    /// Clears every flag of `mask`.
    pub fn remove(&mut self, mask: u8)
        ensures
            final(self)@ == (old(self)@ & !mask),
    {
        self.bits = self.bits & !mask;
    }

    /// Sets or clears every flag of `mask` according to `on`.
    pub fn set(&mut self, mask: u8, on: bool)
        ensures
            final(self)@ == set_flag(old(self)@, mask, on),
    {
        if on {
            self.bits = self.bits | mask;
        } else {
            self.bits = self.bits & !mask;
        }
    }
}

} // verus!
