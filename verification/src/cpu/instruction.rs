//! The instruction set: the closed set of operations the engine can run,
//! their operand descriptors, and the opcode tables that decode to them.

use vstd::prelude::*;
use crate::cpu::registers::FlagsRegister;

verus! {

/// The opcode that says the next byte is looked up in the prefixed table.
pub const PREFIX_OPCODE: u8 = 0xCB;

/// When a jump, a call or a return is taken.
#[derive(Clone, Copy, Debug, PartialEq, Eq)]
pub enum JumpCondition {
    Always,
    NotZero,
    NotCarry,
    Zero,
    Carry,
}

impl JumpCondition {
    /// Whether the condition is met under `flags`.
    pub open spec fn holds(self, flags: FlagsRegister) -> bool {
        match self {
            JumpCondition::Always => true,
            JumpCondition::NotZero => !flags.zero,
            JumpCondition::NotCarry => !flags.carry,
            JumpCondition::Zero => flags.zero,
            JumpCondition::Carry => flags.carry,
        }
    }
}

/// One decoded operation with the operands it needs.
#[derive(Clone, Copy, Debug, PartialEq, Eq)]
pub enum Instruction {
    NOP,
    HALT,
    ADD(ArithmeticTarget),
    JP(JumpCondition),
    LD(LoadType),
    PUSH(StackTarget),
    POP(StackTarget),
    CALL(JumpCondition),
    RET(JumpCondition),
}

impl Instruction {
    /// The prefixed opcode table. No opcode of it is mapped yet.
    pub open spec fn decode_prefixed(byte: u8) -> Option<Instruction> {
        None
    }

    /// The plain opcode table. Two opcodes are mapped: `0x81` is `ADD A, C`
    /// and `0xC3` is the unconditional `JP`. Every other opcode is a gap of
    /// the table and decodes to nothing.
    pub open spec fn decode_non_prefixed(byte: u8) -> Option<Instruction> {
        if byte == 0x81 {
            Some(Instruction::ADD(ArithmeticTarget::C))
        } else if byte == 0xC3 {
            Some(Instruction::JP(JumpCondition::Always))
        } else {
            None
        }
    }

    /// What an opcode decodes to. The two tables share nothing: `prefixed`
    /// alone picks the table.
    pub open spec fn decode(byte: u8, prefixed: bool) -> Option<Instruction> {
        if prefixed {
            Instruction::decode_prefixed(byte)
        } else {
            Instruction::decode_non_prefixed(byte)
        }
    }

    /// Decodes an opcode. `prefixed` says that the byte fetched before it was
    /// the prefix opcode. `None` means the opcode is not mapped: the caller
    /// must stop the run.
    pub fn from_byte(byte: u8, prefixed: bool) -> (instruction: Option<Self>)
        ensures
            instruction == Instruction::decode(byte, prefixed),
    {
        if prefixed {
            Instruction::from_byte_prefixed(byte)
        } else {
            Instruction::from_byte_non_prefixed(byte)
        }
    }

    pub fn from_byte_prefixed(byte: u8) -> (instruction: Option<Self>)
        ensures
            instruction == Instruction::decode_prefixed(byte),
    {
        match byte {
            _ => None,
        }
    }

    pub fn from_byte_non_prefixed(byte: u8) -> (instruction: Option<Self>)
        ensures
            instruction == Instruction::decode_non_prefixed(byte),
    {
        match byte {
            0x81 => Some(Instruction::ADD(ArithmeticTarget::C)),
            0xC3 => Some(Instruction::JP(JumpCondition::Always)),
            _ => None,
        }
    }
}

/// The register that `ADD` adds to `a`.
#[derive(Clone, Copy, Debug, PartialEq, Eq)]
pub enum ArithmeticTarget {
    A,
    B,
    C,
    D,
    E,
    H,
    L,
}

/// Where a byte load writes: a register, or the memory cell `HL` points at.
#[derive(Clone, Copy, Debug, PartialEq, Eq)]
pub enum LoadByteTarget {
    A,
    B,
    C,
    D,
    E,
    H,
    L,
    HL,
}

/// Where a byte load reads: a register, the memory cell `HL` points at, or
/// the byte that follows the opcode (`D8`).
#[derive(Clone, Copy, Debug, PartialEq, Eq)]
pub enum LoadByteSource {
    A,
    B,
    C,
    D,
    E,
    H,
    L,
    HL,
    D8,
}

/// The kinds of load.
#[derive(Clone, Copy, Debug, PartialEq, Eq)]
pub enum LoadType {
    Byte(LoadByteSource, LoadByteTarget),
}

/// The register pair that `PUSH` and `POP` move.
#[derive(Clone, Copy, Debug, PartialEq, Eq)]
pub enum StackTarget {
    BC,
    DE,
    HL,
    AF,
}

} // verus!
