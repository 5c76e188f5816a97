use rust_boy::cpu::registers::{FlagsRegister, Registers};

fn flags(bits: u8) -> FlagsRegister {
    FlagsRegister {
        zero: bits & 8 != 0,
        subtract: bits & 4 != 0,
        half_carry: bits & 2 != 0,
        carry: bits & 1 != 0,
    }
}

#[test]
fn flags_round_trip_for_every_combination() {
    for bits in 0..16u8 {
        let unpacked = flags(bits);
        let byte = u8::from(unpacked);
        assert_eq!(byte & 0x0F, 0);
        assert_eq!(byte, bits << 4);
        assert_eq!(FlagsRegister::from(byte), unpacked);
    }
}

#[test]
fn flags_pack_into_the_upper_nibble() {
    let zero = FlagsRegister { zero: true, subtract: false, half_carry: false, carry: false };
    let subtract = FlagsRegister { zero: false, subtract: true, half_carry: false, carry: false };
    let half = FlagsRegister { zero: false, subtract: false, half_carry: true, carry: false };
    let carry = FlagsRegister { zero: false, subtract: false, half_carry: false, carry: true };
    assert_eq!(u8::from(zero), 0x80);
    assert_eq!(u8::from(subtract), 0x40);
    assert_eq!(u8::from(half), 0x20);
    assert_eq!(u8::from(carry), 0x10);
    assert_eq!(u8::from(flags(0b1111)), 0xF0);
    assert_eq!(u8::from(flags(0)), 0x00);
}

#[test]
fn flags_decode_ignores_the_low_nibble() {
    for byte in 0..=255u8 {
        let decoded = FlagsRegister::from(byte);
        assert_eq!(decoded.zero, byte & 0x80 != 0);
        assert_eq!(decoded.subtract, byte & 0x40 != 0);
        assert_eq!(decoded.half_carry, byte & 0x20 != 0);
        assert_eq!(decoded.carry, byte & 0x10 != 0);
        assert_eq!(u8::from(decoded), byte & 0xF0);
    }
}

#[test]
fn default_flags_are_clear() {
    assert_eq!(FlagsRegister::default(), flags(0));
}

#[test]
fn new_registers_are_zero() {
    let registers = Registers::new();
    assert_eq!(
        registers,
        Registers { a: 0, b: 0, c: 0, d: 0, e: 0, f: flags(0), h: 0, l: 0 }
    );
    assert_eq!(registers.get_af(), 0);
    assert_eq!(registers.get_bc(), 0);
    assert_eq!(registers.get_de(), 0);
    assert_eq!(registers.get_hl(), 0);
}

#[test]
fn pairs_are_big_endian() {
    let registers =
        Registers { a: 0x01, b: 0x23, c: 0x45, d: 0x67, e: 0x89, f: flags(0b1010), h: 0xAB, l: 0xCD };
    assert_eq!(registers.get_af(), 0x01A0);
    assert_eq!(registers.get_bc(), 0x2345);
    assert_eq!(registers.get_de(), 0x6789);
    assert_eq!(registers.get_hl(), 0xABCD);
}

#[test]
fn set_bc_round_trips_for_every_value() {
    let mut registers = Registers::new();
    for x in 0..=0xFFFFu16 {
        registers.set_bc(x);
        assert_eq!(registers.get_bc(), x);
        assert_eq!(registers.b, (x >> 8) as u8);
        assert_eq!(registers.c, x as u8);
    }
}

#[test]
fn set_de_round_trips_for_every_value() {
    let mut registers = Registers::new();
    for x in 0..=0xFFFFu16 {
        registers.set_de(x);
        assert_eq!(registers.get_de(), x);
        assert_eq!(registers.d, (x >> 8) as u8);
        assert_eq!(registers.e, x as u8);
    }
}

#[test]
fn set_hl_round_trips_for_every_value() {
    let mut registers = Registers::new();
    for x in 0..=0xFFFFu16 {
        registers.set_hl(x);
        assert_eq!(registers.get_hl(), x);
        assert_eq!(registers.h, (x >> 8) as u8);
        assert_eq!(registers.l, x as u8);
    }
}

#[test]
fn set_af_round_trips_where_the_low_nibble_is_zero() {
    let mut registers = Registers::new();
    for x in 0..=0xFFFFu16 {
        registers.set_af(x);
        assert_eq!(registers.get_af(), x & 0xFFF0);
        if x & 0x000F == 0 {
            assert_eq!(registers.get_af(), x);
        }
        assert_eq!(registers.a, (x >> 8) as u8);
        assert_eq!(registers.f, FlagsRegister::from(x as u8));
    }
}

#[test]
fn setting_a_pair_leaves_the_other_cells() {
    let start =
        Registers { a: 1, b: 2, c: 3, d: 4, e: 5, f: flags(0b0101), h: 6, l: 7 };

    let mut registers = start;
    registers.set_bc(0xBEEF);
    assert_eq!(registers, Registers { b: 0xBE, c: 0xEF, ..start });

    let mut registers = start;
    registers.set_de(0xBEEF);
    assert_eq!(registers, Registers { d: 0xBE, e: 0xEF, ..start });

    let mut registers = start;
    registers.set_hl(0xBEEF);
    assert_eq!(registers, Registers { h: 0xBE, l: 0xEF, ..start });

    let mut registers = start;
    registers.set_af(0xBEEF);
    assert_eq!(registers, Registers { a: 0xBE, f: flags(0b1110), ..start });
}
