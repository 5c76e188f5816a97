//! The execution engine: register file, program counter, stack pointer and
//! the flat 64 KiB memory it runs on.
//!
//! What the engine does is stated over [`Machine`], the mathematical view of
//! a [`CPU`]: each operation of the engine has a spec function there, and the
//! executable operation is proved to compute it.

pub mod instruction;
pub mod machine;
pub mod registers;

use vstd::prelude::*;
use crate::cpu::instruction::{
    ArithmeticTarget, Instruction, JumpCondition, LoadByteSource, LoadByteTarget, LoadType,
    StackTarget, PREFIX_OPCODE,
};
use crate::cpu::machine::{sum, Machine, ENTRY_POINT, MEMORY_SIZE};
use crate::cpu::registers::{lemma_split_bits, lemma_word_bits, FlagsRegister, Registers};
use crate::gpu::{GPU, VRAM_END, VRAM_START};

verus! {

/// A step that could not be taken: the opcode at `pc` is not mapped.
#[derive(Clone, Copy, Debug, PartialEq, Eq)]
pub struct UnknownInstruction {
    /// The opcode that did not decode: the byte after the prefix where
    /// `prefixed` is set.
    pub byte: u8,
    /// Whether the byte at `pc` was the prefix opcode.
    pub prefixed: bool,
    /// The program counter at which the fetch began.
    pub pc: u16,
}

/// The engine: registers, program counter, stack pointer, the whole
/// addressable memory, and the video memory decoder that its writes into
/// the video memory window are forwarded to.
pub struct CPU {
    pub registers: Registers,
    pub pc: u16,
    pub sp: u16,
    pub memory: [u8; MEMORY_SIZE],
    pub is_halted: bool,
    pub gpu: GPU,
}

impl View for CPU {
    type V = Machine;

    open spec fn view(&self) -> Machine {
        Machine {
            registers: self.registers,
            pc: self.pc,
            sp: self.sp,
            memory: self.memory@,
            halted: self.is_halted,
            video: self.gpu@,
        }
    }
}

/// Whether `condition` is met under `flags`. Jumps, calls and returns all
/// decide by this one function.
pub fn condition_holds(condition: JumpCondition, flags: &FlagsRegister) -> (holds: bool)
    ensures
        holds == condition.holds(*flags),
{
    match condition {
        JumpCondition::Always => true,
        JumpCondition::NotZero => !flags.zero,
        JumpCondition::NotCarry => !flags.carry,
        JumpCondition::Zero => flags.zero,
        JumpCondition::Carry => flags.carry,
    }
}

impl CPU {
    /// The view of every `CPU` has a memory and a video RAM of full size.
    pub proof fn lemma_view_wf(self)
        ensures
            self@.wf(),
    {
        self.gpu.lemma_view_len();
    }

    /// The engine at power-on: registers and memory zero, `pc` at the entry
    /// point, `sp` zero, running, with a blank decoder.
    pub fn new() -> (cpu: Self)
        ensures
            cpu@ == Machine::initial(),
    {
        let cpu = Self {
            registers: Registers::new(),
            pc: ENTRY_POINT,
            sp: 0x00,
            memory: [0;MEMORY_SIZE],
            is_halted: false,
            gpu: GPU::new(),
        };
        assert(cpu.memory@ =~= Machine::initial().memory);
        cpu
    }

    /// One step: fetches the opcode at `pc`, or the one after it where the
    /// byte at `pc` is the prefix, decodes it, runs the instruction, and
    /// moves `pc` to the next instruction unless the machine is then halted.
    /// The opcode must be mapped: `try_cycle` makes that test.
    pub fn cycle(&mut self)
        requires
            old(self)@.fetch() is Some,
        ensures
            Some(final(self)@) == old(self)@.step(),
            old(self).is_halted ==> final(self).is_halted,
            final(self).is_halted ==> final(self).pc == old(self).pc,
    {
        let mut byte = self.read_byte(self.pc);
        let prefixed = byte == PREFIX_OPCODE;

        if prefixed {
            byte = self.read_byte(self.pc.wrapping_add(1));
        }
        match Instruction::from_byte(byte, prefixed) {
            Some(instruction) => {
                let next_pc = self.execute(instruction);
                if !self.is_halted {
                    self.pc = next_pc;
                }
            },
            None => vstd::pervasive::unreached(),
        }
    }

    /// One step, if the opcode at `pc` is mapped. If it is not, nothing
    /// changes, and the error names the opcode, whether it was prefixed, and
    /// `pc`: the run cannot go on.
    pub fn try_cycle(&mut self) -> (result: Result<(), UnknownInstruction>)
        ensures
            result is Ok <==> old(self)@.fetch() is Some,
            result is Ok ==> Some(final(self)@) == old(self)@.step(),
            old(self).is_halted ==> final(self).is_halted,
            final(self).is_halted ==> final(self).pc == old(self).pc,
            result is Err ==> *final(self) == *old(self),
            result matches Err(fault) ==> fault.byte == old(self)@.opcode() && fault.prefixed
                == old(self)@.prefixed() && fault.pc == old(self).pc,
    {
        let mut byte = self.read_byte(self.pc);
        let prefixed = byte == PREFIX_OPCODE;

        if prefixed {
            byte = self.read_byte(self.pc.wrapping_add(1));
        }
        if Instruction::from_byte(byte, prefixed).is_some() {
            self.cycle();
            Ok(())
        } else {
            Err(UnknownInstruction { byte, prefixed, pc: self.pc })
        }
    }

    /// The word that follows the opcode at `pc`, low byte first.
    pub fn read_next_word(&self) -> (value: u16)
        ensures
            value == self@.next_word(),
    {
        let lo = self.read_byte(self.pc.wrapping_add(1)) as u16;
        let hi = self.read_byte(self.pc.wrapping_add(2)) as u16;
        proof {
            lemma_word_bits(hi as u8, lo as u8);
        }
        (hi << 8) | lo
    }

    /// The byte that follows the opcode at `pc`.
    pub fn read_next_byte(&self) -> (value: u8)
        ensures
            value == self@.next_byte(),
    {
        self.read_byte(self.pc.wrapping_add(1))
    }

    /// The byte at `address`.
    pub fn read_byte(&self, address: u16) -> (value: u8)
        ensures
            value == self@.read(address),
    {
        self.memory[address as usize]
    }

    /// Stores `value` at `address`. A write into the video memory window
    /// is forwarded to the decoder as well, which decodes the tile row it
    /// lands in before this returns.
    pub fn write_byte(&mut self, address: u16, value: u8)
        ensures
            final(self)@ == old(self)@.write(address, value),
    {
        self.memory[address as usize] = value;
        if VRAM_START <= address as usize && address as usize <= VRAM_END {
            self.gpu.write_vram(address as usize - VRAM_START, value);
        }
    }

    /// Executes the instruction and returns the next value of the program
    /// counter. The program counter itself is left as it is.
    pub fn execute(&mut self, instruction: Instruction) -> (next_pc: u16)
        ensures
            final(self)@ == old(self)@.execute(instruction),
            next_pc == old(self)@.next_pc(instruction),
    {
        match instruction {
            Instruction::NOP => self.pc.wrapping_add(1),
            Instruction::HALT => {
                self.is_halted = true;
                self.pc.wrapping_add(1)
            },
            Instruction::LD(load_type) => match load_type {
                LoadType::Byte(source, target) => {
                    let value = match source {
                        LoadByteSource::A => self.registers.a,
                        LoadByteSource::B => self.registers.b,
                        LoadByteSource::C => self.registers.c,
                        LoadByteSource::D => self.registers.d,
                        LoadByteSource::E => self.registers.e,
                        LoadByteSource::H => self.registers.h,
                        LoadByteSource::L => self.registers.l,
                        LoadByteSource::HL => self.read_byte(self.registers.get_hl()),
                        LoadByteSource::D8 => self.read_next_byte(),
                    };
                    assert(value == old(self)@.source(source));
                    match target {
                        LoadByteTarget::A => self.registers.a = value,
                        LoadByteTarget::B => self.registers.b = value,
                        LoadByteTarget::C => self.registers.c = value,
                        LoadByteTarget::D => self.registers.d = value,
                        LoadByteTarget::E => self.registers.e = value,
                        LoadByteTarget::H => self.registers.h = value,
                        LoadByteTarget::L => self.registers.l = value,
                        LoadByteTarget::HL => self.write_byte(self.registers.get_hl(), value),
                    };
                    assert(self@ == old(self)@.store(target, value));

                    match source {
                        LoadByteSource::D8 => self.pc.wrapping_add(2),
                        _ => self.pc.wrapping_add(1),
                    }
                },
            },
            Instruction::ADD(target) => {
                let value = match target {
                    ArithmeticTarget::A => self.registers.a,
                    ArithmeticTarget::B => self.registers.b,
                    ArithmeticTarget::C => self.registers.c,
                    ArithmeticTarget::D => self.registers.d,
                    ArithmeticTarget::E => self.registers.e,
                    ArithmeticTarget::H => self.registers.h,
                    ArithmeticTarget::L => self.registers.l,
                };
                let new_value = self.add(value);
                self.registers.a = new_value;
                self.pc.wrapping_add(1)
            },
            Instruction::JP(condition) => {
                let should_jump = condition_holds(condition, &self.registers.f);
                self.jump(should_jump)
            },
            Instruction::PUSH(target) => {
                let value = match target {
                    StackTarget::BC => self.registers.get_bc(),
                    StackTarget::DE => self.registers.get_de(),
                    StackTarget::HL => self.registers.get_hl(),
                    StackTarget::AF => self.registers.get_af(),
                };
                self.push(value);
                self.pc.wrapping_add(1)
            },
            Instruction::POP(target) => {
                let result = self.pop();
                match target {
                    StackTarget::BC => self.registers.set_bc(result),
                    StackTarget::DE => self.registers.set_de(result),
                    StackTarget::HL => self.registers.set_hl(result),
                    StackTarget::AF => self.registers.set_af(result),
                }
                self.pc.wrapping_add(1)
            },
            Instruction::CALL(condition) => {
                let should_jump = condition_holds(condition, &self.registers.f);
                self.call(should_jump)
            },
            Instruction::RET(condition) => {
                let should_jump = condition_holds(condition, &self.registers.f);
                self.ret(should_jump)
            },
        }
    }

    /// Pushes the address past the call and returns the call's target where
    /// the call is taken; returns the address past the call where it is not.
    pub fn call(&mut self, should_jump: bool) -> (next_pc: u16)
        ensures
            final(self)@ == old(self)@.call(should_jump),
            next_pc == old(self)@.call_target(should_jump),
    {
        // The next address if we didn't have to jump.
        // Skips the instruction and the 2 bytes for the jump address
        let next_pc = self.pc.wrapping_add(3);
        if should_jump {
            self.push(next_pc);
            self.read_next_word()
        } else {
            next_pc
        }
    }

    /// Pops the address to return to where the return is taken; returns the
    /// address past the instruction where it is not.
    pub fn ret(&mut self, should_jump: bool) -> (next_pc: u16)
        ensures
            final(self)@ == old(self)@.ret(should_jump),
            next_pc == old(self)@.ret_target(should_jump),
    {
        if should_jump {
            self.pop()
        } else {
            self.pc.wrapping_add(1)
        }
    }

    /// Pushes `value`: `sp` goes down by one and takes the high byte, then
    /// down by one more and takes the low byte.
    pub fn push(&mut self, value: u16)
        ensures
            final(self)@ == old(self)@.push(value),
    {
        proof {
            lemma_split_bits(value);
        }
        self.sp = self.sp.wrapping_sub(1);
        self.write_byte(self.sp, ((value & 0xFF00) >> 8) as u8);
        self.sp = self.sp.wrapping_sub(1);
        self.write_byte(self.sp, (value & 0x00FF) as u8);
    }

    /// Pops a word: the low byte is read at `sp`, the high byte above it,
    /// and `sp` goes up by two.
    pub fn pop(&mut self) -> (value: u16)
        ensures
            final(self)@ == old(self)@.pop(),
            value == old(self)@.top(),
    {
        let lo = self.read_byte(self.sp) as u16;
        self.sp = self.sp.wrapping_add(1);
        let hi = self.read_byte(self.sp) as u16;
        self.sp = self.sp.wrapping_add(1);
        proof {
            lemma_word_bits(hi as u8, lo as u8);
        }
        (hi << 8) | lo
    }

    /// Returns the next value of the program counter.
    pub fn jump(&mut self, should_jump: bool) -> (next_pc: u16)
        ensures
            final(self)@ == old(self)@,
            next_pc == old(self)@.jump(should_jump),
    {
        if should_jump {
            self.read_next_word()
        } else {
            // Just skip the 3 bytes of the jump instruction
            self.pc.wrapping_add(3)
        }
    }

    /// Sets the flags for adding `value` to `a` and returns the sum. `a`
    /// itself is left as it is.
    pub fn add(&mut self, value: u8) -> (new_value: u8)
        ensures
            new_value == sum(old(self).registers.a, value),
            final(self)@ == old(self)@.add(value),
    {
        let a = self.registers.a;
        let new_value = a.wrapping_add(value);
        let overflow = (a as u16) + (value as u16) > 0xFF;
        assert(a & 0xF == a % 0x10 && value & 0xF == value % 0x10) by (bit_vector);
        self.registers.f.zero = new_value == 0;
        self.registers.f.subtract = false;
        self.registers.f.carry = overflow;
        self.registers.f.half_carry = (a & 0xF) + (value & 0xF) > 0xF;
        new_value
    }
}

} // verus!
