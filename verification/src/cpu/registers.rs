//! The register file and its flags register.

use vstd::prelude::*;
use vstd::std_specs::convert::FromSpecImpl;

verus! {

/// The four condition flags of the processor.
#[derive(Clone, Copy, Debug, PartialEq, Eq)]
pub struct FlagsRegister {
    /// Set when the result of the operation is 0.
    pub zero: bool,
    /// Set when the operation was a subtraction.
    pub subtract: bool,
    /// Set when the operation carried out of the lower four bits:
    /// 0b10001111 -> 0b10010000.
    pub half_carry: bool,
    /// Set when the operation carried out of the byte.
    pub carry: bool,
}

impl FlagsRegister {
    /// The byte that holds the flags: zero in bit 7, subtract in bit 6,
    /// half-carry in bit 5, carry in bit 4. The low nibble is zero.
    pub open spec fn to_byte(self) -> u8 {
        ((if self.zero { 0x80int } else { 0 })
            + (if self.subtract { 0x40int } else { 0 })
            + (if self.half_carry { 0x20int } else { 0 })
            + (if self.carry { 0x10int } else { 0 })) as u8
    }

    /// The flags that a byte holds in its upper nibble. The low nibble is
    /// not looked at.
    pub open spec fn from_byte(byte: u8) -> FlagsRegister {
        FlagsRegister {
            zero: (byte / 0x80) % 2 == 1,
            subtract: (byte / 0x40) % 2 == 1,
            half_carry: (byte / 0x20) % 2 == 1,
            carry: (byte / 0x10) % 2 == 1,
        }
    }

    /// All four flags clear.
    pub open spec fn cleared() -> FlagsRegister {
        FlagsRegister { zero: false, subtract: false, half_carry: false, carry: false }
    }
}

impl Default for FlagsRegister {
    fn default() -> (flags: Self)
        ensures
            flags == FlagsRegister::cleared(),
    {
        FlagsRegister { zero: false, subtract: false, half_carry: false, carry: false }
    }
}

impl From<u8> for FlagsRegister {
    fn from(byte: u8) -> (flags: Self) {
        proof {
            lemma_flag_bits(byte);
        }
        let zero = ((byte >> 7) & 0b1) != 0;
        let subtract = ((byte >> 6) & 0b1) != 0;
        let half_carry = ((byte >> 5) & 0b1) != 0;
        let carry = ((byte >> 4) & 0b1) != 0;

        FlagsRegister { zero, subtract, half_carry, carry }
    }
}

impl FromSpecImpl<u8> for FlagsRegister {
    open spec fn obeys_from_spec() -> bool {
        true
    }

    open spec fn from_spec(byte: u8) -> Self {
        FlagsRegister::from_byte(byte)
    }
}

impl From<FlagsRegister> for u8 {
    fn from(flag: FlagsRegister) -> (byte: Self) {
        let zero: u8 = if flag.zero { 1 } else { 0 };
        let subtract: u8 = if flag.subtract { 1 } else { 0 };
        let half_carry: u8 = if flag.half_carry { 1 } else { 0 };
        let carry: u8 = if flag.carry { 1 } else { 0 };
        proof {
            lemma_flag_shifts(zero, subtract, half_carry, carry);
        }
        zero << 7 | subtract << 6 | half_carry << 5 | carry << 4
    }
}

impl FromSpecImpl<FlagsRegister> for u8 {
    open spec fn obeys_from_spec() -> bool {
        true
    }

    open spec fn from_spec(flag: FlagsRegister) -> Self {
        flag.to_byte()
    }
}

/// Bit 7 to bit 4 of a byte, read by shift and mask, are its quotients by
/// 128, 64, 32 and 16, taken modulo 2.
proof fn lemma_flag_bits(byte: u8)
    by (bit_vector)
    ensures
        (((byte >> 7) & 1) != 0) == ((byte / 0x80) % 2 == 1),
        (((byte >> 6) & 1) != 0) == ((byte / 0x40) % 2 == 1),
        (((byte >> 5) & 1) != 0) == ((byte / 0x20) % 2 == 1),
        (((byte >> 4) & 1) != 0) == ((byte / 0x10) % 2 == 1),
{
}

/// Four single bits, shifted to positions 7 to 4 and joined, add up.
proof fn lemma_flag_shifts(zero: u8, subtract: u8, half_carry: u8, carry: u8)
    by (bit_vector)
    requires
        zero <= 1,
        subtract <= 1,
        half_carry <= 1,
        carry <= 1,
    ensures
        zero << 7 | subtract << 6 | half_carry << 5 | carry << 4 == zero * 0x80 + subtract * 0x40
            + half_carry * 0x20 + carry * 0x10,
{
}

/// Unpacking what was packed gives the flags back, and the packed byte has a
/// low nibble of zero.
pub proof fn lemma_flags_round_trip(flags: FlagsRegister)
    ensures
        FlagsRegister::from_byte(flags.to_byte()) == flags,
        flags.to_byte() % 0x10 == 0,
        flags.to_byte() & 0x0F == 0,
{
    let byte = flags.to_byte();
    assert(byte % 0x10 == 0 ==> byte & 0x0F == 0) by (bit_vector);
}

/// Packing what was unpacked keeps the upper nibble of the byte and clears
/// the lower one.
pub proof fn lemma_byte_round_trip(byte: u8)
    ensures
        FlagsRegister::from_byte(byte).to_byte() == byte - byte % 0x10,
        FlagsRegister::from_byte(byte).to_byte() == byte & 0xF0,
{
    assert(byte & 0xF0 == byte - byte % 0x10) by (bit_vector);
}

/// The 16-bit value of a register pair: `high` is the high byte.
pub open spec fn word(high: u8, low: u8) -> u16 {
    (high * 0x100 + low) as u16
}

/// The high byte of a 16-bit value.
pub open spec fn high_byte(value: u16) -> u8 {
    (value / 0x100) as u8
}

/// The low byte of a 16-bit value.
pub open spec fn low_byte(value: u16) -> u8 {
    (value % 0x100) as u8
}

/// Joining two bytes by shift and or is `word`.
pub proof fn lemma_word_bits(high: u8, low: u8)
    ensures
        (high as u16) << 8 | (low as u16) == word(high, low),
{
    assert((high as u16) << 8 | (low as u16) == high * 0x100 + low) by (bit_vector);
}

/// Splitting a 16-bit value by mask and shift gives `high_byte` and
/// `low_byte`.
pub proof fn lemma_split_bits(value: u16)
    ensures
        (value & 0xFF00) >> 8 == high_byte(value),
        value & 0xFF == low_byte(value),
{
    assert((value & 0xFF00) >> 8 == value / 0x100) by (bit_vector);
    assert(value & 0xFF == value % 0x100) by (bit_vector);
}

/// A 16-bit value is the pair of its two bytes, and the bytes of a pair are
/// the two it was made of.
pub proof fn lemma_word_round_trip(value: u16, high: u8, low: u8)
    ensures
        word(high_byte(value), low_byte(value)) == value,
        high_byte(word(high, low)) == high,
        low_byte(word(high, low)) == low,
{
}

/// The eight 8-bit registers. `f` is kept as its four flags.
#[derive(Clone, Copy, Debug, PartialEq, Eq)]
pub struct Registers {
    pub a: u8,
    pub b: u8,
    pub c: u8,
    pub d: u8,
    pub e: u8,
    pub f: FlagsRegister,
    pub h: u8,
    pub l: u8,
}

impl Registers {
    /// The register file with every cell zero and every flag clear.
    pub open spec fn zeroed() -> Registers {
        Registers { a: 0, b: 0, c: 0, d: 0, e: 0, f: FlagsRegister::cleared(), h: 0, l: 0 }
    }

    /// The pair `AF`: `a` above the packed flags.
    pub open spec fn af(self) -> u16 {
        word(self.a, self.f.to_byte())
    }

    /// The pair `BC`.
    pub open spec fn bc(self) -> u16 {
        word(self.b, self.c)
    }

    /// The pair `DE`.
    pub open spec fn de(self) -> u16 {
        word(self.d, self.e)
    }

    /// The pair `HL`.
    pub open spec fn hl(self) -> u16 {
        word(self.h, self.l)
    }

    /// The register file after `AF` is written: `a` takes the high byte, the
    /// flags are unpacked from the low byte.
    pub open spec fn with_af(self, value: u16) -> Registers {
        Registers { a: high_byte(value), f: FlagsRegister::from_byte(low_byte(value)), ..self }
    }

    /// The register file after `BC` is written.
    pub open spec fn with_bc(self, value: u16) -> Registers {
        Registers { b: high_byte(value), c: low_byte(value), ..self }
    }

    /// The register file after `DE` is written.
    pub open spec fn with_de(self, value: u16) -> Registers {
        Registers { d: high_byte(value), e: low_byte(value), ..self }
    }

    /// The register file after `HL` is written.
    pub open spec fn with_hl(self, value: u16) -> Registers {
        Registers { h: high_byte(value), l: low_byte(value), ..self }
    }

    pub fn new() -> (registers: Self)
        ensures
            registers == Registers::zeroed(),
    {
        Self { a: 0, b: 0, c: 0, d: 0, e: 0, f: FlagsRegister::default(), h: 0, l: 0 }
    }

    pub fn get_af(&self) -> (value: u16)
        ensures
            value == self.af(),
    {
        let flags = u8::from(self.f);
        proof {
            lemma_word_bits(self.a, flags);
        }
        (self.a as u16) << 8 | (flags as u16)
    }

    pub fn set_af(&mut self, value: u16)
        ensures
            *final(self) == old(self).with_af(value),
    {
        proof {
            lemma_split_bits(value);
        }
        self.a = ((value & 0xFF00) >> 8) as u8;
        self.f = FlagsRegister::from((value & 0xFF) as u8);
    }

    pub fn get_bc(&self) -> (value: u16)
        ensures
            value == self.bc(),
    {
        proof {
            lemma_word_bits(self.b, self.c);
        }
        (self.b as u16) << 8 | (self.c as u16)
    }

    pub fn set_bc(&mut self, value: u16)
        ensures
            *final(self) == old(self).with_bc(value),
    {
        proof {
            lemma_split_bits(value);
        }
        self.b = ((value & 0xFF00) >> 8) as u8;
        self.c = (value & 0xFF) as u8;
    }

    pub fn get_de(&self) -> (value: u16)
        ensures
            value == self.de(),
    {
        proof {
            lemma_word_bits(self.d, self.e);
        }
        (self.d as u16) << 8 | (self.e as u16)
    }

    pub fn set_de(&mut self, value: u16)
        ensures
            *final(self) == old(self).with_de(value),
    {
        proof {
            lemma_split_bits(value);
        }
        self.d = ((value & 0xFF00) >> 8) as u8;
        self.e = (value & 0xFF) as u8;
    }

    pub fn get_hl(&self) -> (value: u16)
        ensures
            value == self.hl(),
    {
        proof {
            lemma_word_bits(self.h, self.l);
        }
        (self.h as u16) << 8 | (self.l as u16)
    }

    pub fn set_hl(&mut self, value: u16)
        ensures
            *final(self) == old(self).with_hl(value),
    {
        proof {
            lemma_split_bits(value);
        }
        self.h = ((value & 0xFF00) >> 8) as u8;
        self.l = (value & 0xFF) as u8;
    }
}

/// Reading a register pair after writing it gives the value written, for
/// `BC`, `DE` and `HL`; the write leaves the other cells alone.
pub proof fn lemma_pair_round_trip(registers: Registers, value: u16)
    ensures
        registers.with_bc(value).bc() == value,
        registers.with_de(value).de() == value,
        registers.with_hl(value).hl() == value,
        registers.with_bc(registers.bc()) == registers,
        registers.with_de(registers.de()) == registers,
        registers.with_hl(registers.hl()) == registers,
{
}

/// Reading `AF` after writing it gives the value written with its low
/// nibble cleared: the value itself where that nibble is zero.
pub proof fn lemma_af_round_trip(registers: Registers, value: u16)
    ensures
        registers.with_af(value).af() == value - value % 0x10,
        registers.with_af(value).af() == value & 0xFFF0,
        value % 0x10 == 0 ==> registers.with_af(value).af() == value,
        value & 0x000F == 0 ==> registers.with_af(value).af() == value,
        registers.with_af(registers.af()) == registers,
        registers.af() % 0x10 == 0,
{
    lemma_byte_round_trip(low_byte(value));
    lemma_flags_round_trip(registers.f);
    assert(value & 0xFFF0 == value - value % 0x10) by (bit_vector);
    assert((value & 0x000F == 0) == (value % 0x10 == 0)) by (bit_vector);
}

} // verus!
