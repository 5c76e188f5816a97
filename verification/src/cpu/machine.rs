//! The engine as mathematics: its state as plain values, and what each of
//! its operations does to that state.

use vstd::prelude::*;
use crate::cpu::instruction::{
    ArithmeticTarget, Instruction, LoadByteSource, LoadByteTarget, LoadType, StackTarget,
    PREFIX_OPCODE,
};
use crate::cpu::registers::{high_byte, low_byte, word, FlagsRegister, Registers};
use crate::gpu::{VRAM_END, VRAM_SIZE, VRAM_START};

verus! {

/// The number of cells of the memory: one for each 16-bit address.
pub const MEMORY_SIZE: usize = 0x10000;

/// The address at which a fresh machine starts to run.
pub const ENTRY_POINT: u16 = 0x100;

/// The address `delta` cells away from `address`, wrapping round the 16-bit
/// address space in both directions.
pub open spec fn offset(address: u16, delta: int) -> u16 {
    ((address + delta) % 0x10000) as u16
}

/// Whether `address` lies in the video memory window.
pub open spec fn in_window(address: u16) -> bool {
    VRAM_START <= address <= VRAM_END
}

/// The byte that `ADD` leaves in `a`: the sum modulo 256.
pub open spec fn sum(a: u8, value: u8) -> u8 {
    ((a + value) % 0x100) as u8
}

/// The flags that `ADD` leaves.
pub open spec fn add_flags(a: u8, value: u8) -> FlagsRegister {
    FlagsRegister {
        zero: sum(a, value) == 0,
        subtract: false,
        half_carry: a % 0x10 + value % 0x10 > 0xF,
        carry: a + value > 0xFF,
    }
}

/// The state of the engine as plain values. The memory is a sequence of
/// 65536 bytes; `video` is the video RAM of the decoder that the engine
/// forwards its writes to, a sequence of 8192 bytes.
pub struct Machine {
    pub registers: Registers,
    pub pc: u16,
    pub sp: u16,
    pub memory: Seq<u8>,
    pub halted: bool,
    pub video: Seq<u8>,
}

impl Machine {
    /// The memory holds one byte for each address, and the video RAM one
    /// for each address of the window.
    pub open spec fn wf(self) -> bool {
        self.memory.len() == MEMORY_SIZE && self.video.len() == VRAM_SIZE
    }

    /// The video RAM holds what the memory holds in the window.
    pub open spec fn mirrored(self) -> bool {
        forall|i: int| 0 <= i < VRAM_SIZE ==> self.video[i] == #[trigger] self.memory[VRAM_START + i]
    }

    /// The machine at power-on: registers, memory and video RAM zero, `pc`
    /// at the entry point, `sp` zero, running.
    pub open spec fn initial() -> Machine {
        Machine {
            registers: Registers::zeroed(),
            pc: ENTRY_POINT,
            sp: 0,
            memory: Seq::new(MEMORY_SIZE as nat, |i: int| 0u8),
            halted: false,
            video: Seq::new(VRAM_SIZE as nat, |i: int| 0u8),
        }
    }

    /// The byte at `address`.
    pub open spec fn read(self, address: u16) -> u8 {
        self.memory[address as int]
    }

    /// The machine with `value` at `address`. A write into the video
    /// memory window reaches the video RAM too, at the address counted from
    /// the start of the window.
    pub open spec fn write(self, address: u16, value: u8) -> Machine {
        Machine {
            memory: self.memory.update(address as int, value),
            video: if in_window(address) {
                self.video.update(address - VRAM_START, value)
            } else {
                self.video
            },
            ..self
        }
    }

    /// The byte that follows the opcode at `pc`.
    pub open spec fn next_byte(self) -> u8 {
        self.read(offset(self.pc, 1))
    }

    /// The word that follows the opcode at `pc`: low byte first.
    pub open spec fn next_word(self) -> u16 {
        word(self.read(offset(self.pc, 2)), self.read(offset(self.pc, 1)))
    }

    /// The machine after `value` is pushed: the high byte goes to `sp - 1`,
    /// the low byte to `sp - 2`, which is the new `sp`.
    pub open spec fn push(self, value: u16) -> Machine {
        Machine {
            sp: offset(self.sp, -2),
            ..self.write(offset(self.sp, -1), high_byte(value)).write(
                offset(self.sp, -2),
                low_byte(value),
            )
        }
    }

    /// The word on top of the stack: low byte at `sp`, high byte at `sp + 1`.
    pub open spec fn top(self) -> u16 {
        word(self.read(offset(self.sp, 1)), self.read(self.sp))
    }

    /// The machine after a word is popped: `sp` moves up by two.
    pub open spec fn pop(self) -> Machine {
        Machine { sp: offset(self.sp, 2), ..self }
    }

    /// The machine after the flags are set for adding `value` to `a`. The
    /// sum itself is not stored.
    pub open spec fn add(self, value: u8) -> Machine {
        Machine {
            registers: Registers { f: add_flags(self.registers.a, value), ..self.registers },
            ..self
        }
    }

    /// The register that an arithmetic operand names.
    pub open spec fn operand(self, target: ArithmeticTarget) -> u8 {
        match target {
            ArithmeticTarget::A => self.registers.a,
            ArithmeticTarget::B => self.registers.b,
            ArithmeticTarget::C => self.registers.c,
            ArithmeticTarget::D => self.registers.d,
            ArithmeticTarget::E => self.registers.e,
            ArithmeticTarget::H => self.registers.h,
            ArithmeticTarget::L => self.registers.l,
        }
    }

    /// The byte that a load reads.
    pub open spec fn source(self, source: LoadByteSource) -> u8 {
        match source {
            LoadByteSource::A => self.registers.a,
            LoadByteSource::B => self.registers.b,
            LoadByteSource::C => self.registers.c,
            LoadByteSource::D => self.registers.d,
            LoadByteSource::E => self.registers.e,
            LoadByteSource::H => self.registers.h,
            LoadByteSource::L => self.registers.l,
            LoadByteSource::HL => self.read(self.registers.hl()),
            LoadByteSource::D8 => self.next_byte(),
        }
    }

    /// The machine after a load has written `value`: to a register, or to
    /// the memory cell that `HL` points at.
    pub open spec fn store(self, target: LoadByteTarget, value: u8) -> Machine {
        match target {
            LoadByteTarget::A => Machine {
                registers: Registers { a: value, ..self.registers },
                ..self
            },
            LoadByteTarget::B => Machine {
                registers: Registers { b: value, ..self.registers },
                ..self
            },
            LoadByteTarget::C => Machine {
                registers: Registers { c: value, ..self.registers },
                ..self
            },
            LoadByteTarget::D => Machine {
                registers: Registers { d: value, ..self.registers },
                ..self
            },
            LoadByteTarget::E => Machine {
                registers: Registers { e: value, ..self.registers },
                ..self
            },
            LoadByteTarget::H => Machine {
                registers: Registers { h: value, ..self.registers },
                ..self
            },
            LoadByteTarget::L => Machine {
                registers: Registers { l: value, ..self.registers },
                ..self
            },
            LoadByteTarget::HL => self.write(self.registers.hl(), value),
        }
    }

    /// The value of the register pair that a stack operation names.
    pub open spec fn pair(self, target: StackTarget) -> u16 {
        match target {
            StackTarget::BC => self.registers.bc(),
            StackTarget::DE => self.registers.de(),
            StackTarget::HL => self.registers.hl(),
            StackTarget::AF => self.registers.af(),
        }
    }

    /// The machine after `value` is written to a register pair.
    pub open spec fn with_pair(self, target: StackTarget, value: u16) -> Machine {
        Machine {
            registers: match target {
                StackTarget::BC => self.registers.with_bc(value),
                StackTarget::DE => self.registers.with_de(value),
                StackTarget::HL => self.registers.with_hl(value),
                StackTarget::AF => self.registers.with_af(value),
            },
            ..self
        }
    }

    /// The program counter after a jump: the word that follows the opcode
    /// where the jump is taken, else the address past the three bytes of the
    /// instruction.
    pub open spec fn jump(self, should_jump: bool) -> u16 {
        if should_jump {
            self.next_word()
        } else {
            offset(self.pc, 3)
        }
    }

    /// The machine after a call. Where it is taken, the address past the
    /// instruction is pushed; the target is read once the push is done.
    pub open spec fn call(self, should_jump: bool) -> Machine {
        if should_jump {
            self.push(offset(self.pc, 3))
        } else {
            self
        }
    }

    /// The program counter after a call.
    pub open spec fn call_target(self, should_jump: bool) -> u16 {
        if should_jump {
            self.call(should_jump).next_word()
        } else {
            offset(self.pc, 3)
        }
    }

    /// The machine after a return: the stack loses a word where the return
    /// is taken.
    pub open spec fn ret(self, should_jump: bool) -> Machine {
        if should_jump {
            self.pop()
        } else {
            self
        }
    }

    /// The program counter after a return.
    pub open spec fn ret_target(self, should_jump: bool) -> u16 {
        if should_jump {
            self.top()
        } else {
            offset(self.pc, 1)
        }
    }

    /// The machine after `instruction` has run. `pc` is left as it was: the
    /// address of the next instruction is `next_pc`.
    pub open spec fn execute(self, instruction: Instruction) -> Machine {
        match instruction {
            Instruction::NOP => self,
            Instruction::HALT => Machine { halted: true, ..self },
            Instruction::LD(LoadType::Byte(source, target)) => self.store(
                target,
                self.source(source),
            ),
            Instruction::ADD(target) => {
                let value = self.operand(target);
                let flagged = self.add(value);
                Machine {
                    registers: Registers { a: sum(self.registers.a, value), ..flagged.registers },
                    ..flagged
                }
            },
            Instruction::JP(condition) => self,
            Instruction::PUSH(target) => self.push(self.pair(target)),
            Instruction::POP(target) => self.pop().with_pair(target, self.top()),
            Instruction::CALL(condition) => self.call(condition.holds(self.registers.f)),
            Instruction::RET(condition) => self.ret(condition.holds(self.registers.f)),
        }
    }

    /// The address of the instruction to run after `instruction`.
    pub open spec fn next_pc(self, instruction: Instruction) -> u16 {
        match instruction {
            Instruction::NOP => offset(self.pc, 1),
            Instruction::HALT => offset(self.pc, 1),
            Instruction::LD(LoadType::Byte(source, target)) => if source == LoadByteSource::D8 {
                offset(self.pc, 2)
            } else {
                offset(self.pc, 1)
            },
            Instruction::ADD(target) => offset(self.pc, 1),
            Instruction::JP(condition) => self.jump(condition.holds(self.registers.f)),
            Instruction::PUSH(target) => offset(self.pc, 1),
            Instruction::POP(target) => offset(self.pc, 1),
            Instruction::CALL(condition) => self.call_target(condition.holds(self.registers.f)),
            Instruction::RET(condition) => self.ret_target(condition.holds(self.registers.f)),
        }
    }

    /// Whether the byte at `pc` is the prefix opcode.
    pub open spec fn prefixed(self) -> bool {
        self.read(self.pc) == PREFIX_OPCODE
    }

    /// The opcode of the instruction at `pc`: the byte there, or the one
    /// after it where the byte there is the prefix.
    pub open spec fn opcode(self) -> u8 {
        if self.prefixed() {
            self.read(offset(self.pc, 1))
        } else {
            self.read(self.pc)
        }
    }

    /// The instruction at `pc`, if its opcode is mapped.
    pub open spec fn fetch(self) -> Option<Instruction> {
        Instruction::decode(self.opcode(), self.prefixed())
    }

    /// The machine after one step, or `None` where the opcode at `pc` is not
    /// mapped. The instruction at `pc` runs in full. `pc` then moves to the
    /// next instruction unless the machine is halted once the instruction
    /// has run.
    pub open spec fn step(self) -> Option<Machine> {
        match self.fetch() {
            Some(instruction) => {
                let after = self.execute(instruction);
                if after.halted {
                    Some(after)
                } else {
                    Some(Machine { pc: self.next_pc(instruction), ..after })
                }
            },
            None => None,
        }
    }

    /// The machine after `count` steps, or `None` where one of them meets an
    /// opcode that is not mapped.
    pub open spec fn steps(self, count: nat) -> Option<Machine>
        decreases count,
    {
        if count == 0 {
            Some(self)
        } else {
            match self.step() {
                Some(after) => after.steps((count - 1) as nat),
                None => None,
            }
        }
    }
}

/// What `ADD` computes, bit by bit: the sum wraps at 256, `zero` says that
/// the wrapped sum is 0, `subtract` is clear, `carry` says that the sum left
/// the byte, `half_carry` that the sum of the low nibbles left the nibble.
pub proof fn lemma_add_flags(a: u8, value: u8)
    ensures
        sum(a, value) == a.wrapping_add(value),
        add_flags(a, value).zero == (a.wrapping_add(value) == 0),
        add_flags(a, value).subtract == false,
        add_flags(a, value).carry == (a as u16 + value as u16 > 0xFF),
        add_flags(a, value).half_carry == ((a & 0xF) + (value & 0xF) > 0xF),
{
    assert(a & 0xF == a % 0x10 && value & 0xF == value % 0x10) by (bit_vector);
}

/// Every operation keeps the sizes of the memory and of the video RAM.
pub proof fn lemma_execute_wf(machine: Machine, instruction: Instruction)
    requires
        machine.wf(),
    ensures
        machine.execute(instruction).wf(),
        machine.step() matches Some(after) ==> after.wf(),
{
}

/// A write keeps the video RAM equal to the window of the memory.
pub proof fn lemma_write_mirrored(machine: Machine, address: u16, value: u8)
    requires
        machine.wf(),
        machine.mirrored(),
    ensures
        machine.write(address, value).mirrored(),
{
    let after = machine.write(address, value);
    assert forall|i: int| 0 <= i < VRAM_SIZE implies after.video[i] == #[trigger] after.memory[
        VRAM_START + i] by {
        assert(machine.video[i] == machine.memory[VRAM_START + i]);
    }
}

/// A push keeps the video RAM equal to the window of the memory.
pub proof fn lemma_push_mirrored(machine: Machine, value: u16)
    requires
        machine.wf(),
        machine.mirrored(),
    ensures
        machine.push(value).mirrored(),
{
    let first = machine.write(offset(machine.sp, -1), high_byte(value));
    lemma_write_mirrored(machine, offset(machine.sp, -1), high_byte(value));
    lemma_write_mirrored(first, offset(machine.sp, -2), low_byte(value));
}

/// A fresh machine has the video RAM equal to the window of the memory.
pub proof fn lemma_initial_mirrored()
    ensures
        Machine::initial().wf(),
        Machine::initial().mirrored(),
{
}

/// The video RAM follows the memory: every instruction, whatever it writes,
/// keeps the video RAM equal to the window of the memory, and so does a
/// step.
pub proof fn lemma_execute_mirrored(machine: Machine, instruction: Instruction)
    requires
        machine.wf(),
        machine.mirrored(),
    ensures
        machine.execute(instruction).mirrored(),
        machine.step() matches Some(after) ==> after.mirrored(),
{
    lemma_push_mirrored(machine, machine.pair(StackTarget::BC));
    lemma_push_mirrored(machine, machine.pair(StackTarget::DE));
    lemma_push_mirrored(machine, machine.pair(StackTarget::HL));
    lemma_push_mirrored(machine, machine.pair(StackTarget::AF));
    lemma_push_mirrored(machine, offset(machine.pc, 3));
    match instruction {
        Instruction::LD(LoadType::Byte(source, target)) => {
            lemma_write_mirrored(machine, machine.registers.hl(), machine.source(source));
        },
        _ => {},
    }
    if machine.fetch() is Some {
        let fetched = machine.fetch().unwrap();
        assert(machine.execute(fetched).mirrored());
    }
}

/// A pop right after a push gives the value pushed and puts `sp` back
/// where it was, wherever in the address space the stack lies.
pub proof fn lemma_push_pop(machine: Machine, value: u16)
    requires
        machine.wf(),
    ensures
        machine.push(value).top() == value,
        machine.push(value).pop().sp == machine.sp,
        machine.push(value).pop().registers == machine.registers,
{
}

/// The other way round: pushing the word just popped puts `sp` and every
/// cell of the memory back.
pub proof fn lemma_pop_push(machine: Machine)
    requires
        machine.wf(),
        machine.mirrored(),
    ensures
        machine.pop().push(machine.top()) == machine,
{
    let after = machine.pop().push(machine.top());
    assert(after.memory =~= machine.memory);
    lemma_push_mirrored(machine.pop(), machine.top());
    assert forall|i: int| 0 <= i < VRAM_SIZE implies after.video[i] == machine.video[i] by {
        assert(after.video[i] == after.memory[VRAM_START + i]);
        assert(machine.video[i] == machine.memory[VRAM_START + i]);
    }
    assert(after.video =~= machine.video);
}

/// No instruction wakes a halted machine, and `HALT` halts a running one.
pub proof fn lemma_halt(machine: Machine, instruction: Instruction)
    ensures
        machine.halted ==> machine.execute(instruction).halted,
        machine.execute(Instruction::HALT).halted,
        machine.execute(instruction).pc == machine.pc,
{
}

/// Once the machine is halted, `pc` never changes: after any number of
/// steps the machine is still halted, at the same `pc`.
pub proof fn lemma_halted_keeps_pc(machine: Machine, count: nat)
    requires
        machine.halted,
    ensures
        machine.steps(count) matches Some(after) ==> after.halted && after.pc == machine.pc,
    decreases count,
{
    if count > 0 {
        match machine.step() {
            Some(after) => {
                lemma_halt(machine, machine.fetch().unwrap());
                lemma_halted_keeps_pc(after, (count - 1) as nat);
            },
            None => {},
        }
    }
}

/// A step at the unconditional jump moves `pc` to the word that follows the
/// opcode and changes nothing else.
pub proof fn lemma_step_jump(machine: Machine)
    requires
        machine.read(machine.pc) == 0xC3,
        !machine.halted,
    ensures
        machine.step() == Some(Machine { pc: machine.next_word(), ..machine }),
{
}

/// A step at `ADD A, C` leaves the wrapped sum in `a`, sets the flags, and
/// moves `pc` to the next byte.
pub proof fn lemma_step_add(machine: Machine)
    requires
        machine.read(machine.pc) == 0x81,
        !machine.halted,
    ensures
        machine.step() == Some(
            Machine {
                registers: Registers {
                    a: sum(machine.registers.a, machine.registers.c),
                    f: add_flags(machine.registers.a, machine.registers.c),
                    ..machine.registers
                },
                pc: offset(machine.pc, 1),
                ..machine
            },
        ),
{
}

} // verus!
