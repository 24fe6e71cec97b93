//! The execution engine: one `tick` fetches the instruction at the program
//! counter, decodes it, commits the advanced program counter and performs
//! the instruction against the registers and the address space.
//!
//! What an instruction does is stated as a function on the mathematical
//! state of the machine; the engine is verified to compute that function,
//! and to leave registers and memory untouched when it reports a fault.

use vstd::prelude::*;

use crate::fault::Fault;
use crate::mmu::{lemma_write16_read16, MemoryView, MMU};
use crate::z80::alu::{
    add16_spec, alu_add16, alu_offset, lemma_untouched_flags, offset_spec, BinaryOp, FlagSet,
    UnaryOp,
};
use crate::z80::instructions::{Dest8, FlagState, Instruction, Src16, Src8};
use crate::z80::registers::{
    lemma_set_flags, lemma_write16_of_read16, lemma_write8_read8, Flag, Reg16, Reg8, RegisterState,
    Registers,
};

verus! {

/// The mathematical state of the machine: registers and address space.
pub struct Machine {
    pub regs: RegisterState,
    pub mem: MemoryView,
}

/// The operand that reads the cell which `dest` writes.
pub open spec fn src_of(dest: Dest8) -> Src8 {
    match dest {
        Dest8::Reg(reg) => Src8::Reg(reg),
        Dest8::Indir(pair) => Src8::Indir(pair),
        Dest8::IndirHigh(reg) => Src8::IndirHigh(reg),
        Dest8::Mem(addr) => Src8::Mem(addr),
    }
}

/// The four flags of a register file as values.
pub open spec fn flags_of(regs: RegisterState) -> FlagSet {
    FlagSet {
        zero: regs.flag(Flag::Z),
        subtract: regs.flag(Flag::S),
        half_carry: regs.flag(Flag::H),
        carry: regs.flag(Flag::C),
    }
}

/// The register file with the four flags as given.
pub open spec fn with_flags(regs: RegisterState, flags: FlagSet) -> RegisterState {
    regs.set_flags(flags.zero, flags.subtract, flags.half_carry, flags.carry)
}

/// The address of the memory cell that an operand names. Immediate and
/// register operands name none.
pub open spec fn address_of(regs: RegisterState, src: Src8) -> u16 {
    match src {
        Src8::Indir(pair) => regs.read16(pair),
        Src8::IndirHigh(reg) => (0xFF00 + regs.read8(reg)) as u16,
        Src8::Mem(addr) => addr,
        _ => 0,
    }
}

/// The value of a 16-bit operand. The stack pointer with a displacement
/// reads as their sum modulo 65536.
pub open spec fn src16_value(regs: RegisterState, src: Src16) -> u16 {
    match src {
        Src16::Imm(val) => val,
        Src16::Reg(pair) => regs.read16(pair),
        Src16::SPOffset(offset) => offset_spec(regs.sp, offset).value,
    }
}

/// Whether a condition on a flag holds.
pub open spec fn holds(regs: RegisterState, condition: FlagState) -> bool {
    regs.flag(condition.flag) == condition.state
}

/// The carry flag is set to `carry`; subtract and half-carry are cleared and
/// zero keeps its state.
pub open spec fn with_carry(regs: RegisterState, carry: bool) -> RegisterState {
    with_flags(
        regs,
        FlagSet { zero: regs.flag(Flag::Z), subtract: false, half_carry: false, carry },
    )
}

/// The register pair moves by `step`, modulo 65536. No flag changes.
pub open spec fn step16(regs: RegisterState, pair: Reg16, step: int) -> RegisterState {
    regs.write16(pair, ((regs.read16(pair) + step) % 65536) as u16)
}

/// The program counter is set to the value of the operand.
pub open spec fn jump(regs: RegisterState, src: Src16) -> RegisterState {
    regs.write16(Reg16::PC, src16_value(regs, src))
}

/// The program counter moves by a signed displacement, modulo 65536.
pub open spec fn relative_jump(regs: RegisterState, offset: i8) -> RegisterState {
    regs.write16(Reg16::PC, offset_spec(regs.pc, offset).value)
}

/// A 16-bit load. Only the form that adds a displacement to the stack
/// pointer touches the flags: it clears zero and subtract and sets
/// half-carry and carry from the addition of the low bytes.
pub open spec fn load16(regs: RegisterState, dest: Reg16, src: Src16) -> RegisterState {
    match src {
        Src16::SPOffset(offset) => {
            let sum = offset_spec(regs.sp, offset);
            with_flags(
                regs,
                FlagSet {
                    zero: false,
                    subtract: false,
                    half_carry: sum.half_carry,
                    carry: sum.carry,
                },
            ).write16(dest, sum.value)
        },
        _ => regs.write16(dest, src16_value(regs, src)),
    }
}

/// A 16-bit addition into `dest`. With a displacement as operand the sum is
/// that of the stack pointer and the displacement, and the flags are set as
/// in the load of that form. Otherwise the operand is added to `dest`, zero
/// keeps its state, subtract is cleared, and half-carry and carry are the
/// carries out of bit 11 and bit 15.
pub open spec fn add16(regs: RegisterState, dest: Reg16, src: Src16) -> RegisterState {
    match src {
        Src16::SPOffset(offset) => load16(regs, dest, src),
        _ => {
            let sum = add16_spec(regs.read16(dest), src16_value(regs, src));
            let stored = regs.write16(dest, sum.value);
            with_flags(
                stored,
                FlagSet {
                    zero: stored.flag(Flag::Z),
                    subtract: false,
                    half_carry: sum.half_carry,
                    carry: sum.carry,
                },
            )
        },
    }
}

impl Machine {
    /// The machine with the registers as given and the memory as it is.
    pub open spec fn with_regs(self, regs: RegisterState) -> Machine {
        Machine { regs, ..self }
    }

    pub open spec fn read_src8(self, src: Src8) -> Result<u8, Fault> {
        match src {
            Src8::Imm(val) => Ok(val),
            Src8::Reg(reg) => Ok(self.regs.read8(reg)),
            _ => self.mem.read8(address_of(self.regs, src)),
        }
    }

    pub open spec fn write_dest8(self, dest: Dest8, val: u8) -> Result<Machine, Fault> {
        match dest {
            Dest8::Reg(reg) => Ok(Machine { regs: self.regs.write8(reg, val), ..self }),
            _ => match self.mem.write8(address_of(self.regs, src_of(dest)), val) {
                Ok(mem) => Ok(Machine { mem, ..self }),
                Err(fault) => Err(fault),
            },
        }
    }

    /// An 8-bit load, after which HL moves by `step`: 0, 1 or -1.
    #[verifier::opaque]
    pub open spec fn load8(self, dest: Dest8, src: Src8, step: int) -> Result<Machine, Fault> {
        match self.read_src8(src) {
            Err(fault) => Err(fault),
            Ok(val) => match self.write_dest8(dest, val) {
                Err(fault) => Err(fault),
                Ok(stored) => if step == 0 {
                    Ok(stored)
                } else {
                    Ok(stored.with_regs(step16(stored.regs, Reg16::HL, step)))
                },
            },
        }
    }

    /// An operation on the accumulator and an 8-bit operand: the result goes
    /// to the accumulator unless the operation only compares, and all four
    /// flags are set from the operation's outcome.
    #[verifier::opaque]
    pub open spec fn binary(self, op: BinaryOp, src: Src8) -> Result<Machine, Fault> {
        match self.read_src8(src) {
            Err(fault) => Err(fault),
            Ok(operand) => {
                let out = op.spec_apply(self.regs.a, operand, self.regs.flag(Flag::C));
                let stored = if op.spec_stores() {
                    Machine { regs: self.regs.write8(Reg8::A, out.value), ..self }
                } else {
                    self
                };
                Ok(stored.with_regs(with_flags(stored.regs, out.flags)))
            },
        }
    }

    /// An operation on one 8-bit cell: the cell is read, the result written
    /// back unless the operation only tests, and the flags are set from the
    /// operation's outcome; with `clear_zero` the zero flag is cleared
    /// whatever the result.
    #[verifier::opaque]
    pub open spec fn unary(self, op: UnaryOp, dest: Dest8, clear_zero: bool) -> Result<
        Machine,
        Fault,
    > {
        match self.read_src8(src_of(dest)) {
            Err(fault) => Err(fault),
            Ok(val) => {
                let out = op.spec_apply(val, flags_of(self.regs));
                let flags = if clear_zero {
                    FlagSet { zero: false, ..out.flags }
                } else {
                    out.flags
                };
                if op.spec_stores() {
                    match self.write_dest8(dest, out.value) {
                        Err(fault) => Err(fault),
                        Ok(stored) => Ok(stored.with_regs(with_flags(stored.regs, flags))),
                    }
                } else {
                    Ok(self.with_regs(with_flags(self.regs, flags)))
                }
            },
        }
    }

    /// The stack pointer goes down by two, then the value is written at the
    /// new stack pointer, low byte first.
    #[verifier::opaque]
    pub open spec fn push(self, val: u16) -> Result<Machine, Fault> {
        let sp = ((self.regs.sp - 2) % 65536) as u16;
        match self.mem.write16(sp, val) {
            Err(fault) => Err(fault),
            Ok(mem) => Ok(Machine { regs: self.regs.write16(Reg16::SP, sp), mem }),
        }
    }

    /// The value at the stack pointer is read and goes to `pair`, then the
    /// stack pointer goes up by two.
    #[verifier::opaque]
    pub open spec fn pop(self, pair: Reg16) -> Result<Machine, Fault> {
        match self.mem.read16(self.regs.sp) {
            Err(fault) => Err(fault),
            Ok(val) => Ok(
                self.with_regs(
                    self.regs.write16(pair, val).write16(
                        Reg16::SP,
                        ((self.regs.sp + 2) % 65536) as u16,
                    ),
                ),
            ),
        }
    }

    /// The program counter is pushed, then set to `addr`.
    #[verifier::opaque]
    pub open spec fn call(self, addr: u16) -> Result<Machine, Fault> {
        match self.push(self.regs.pc) {
            Err(fault) => Err(fault),
            Ok(pushed) => Ok(pushed.with_regs(pushed.regs.write16(Reg16::PC, addr))),
        }
    }

    /// What an instruction does to the machine. `at` is the address that the
    /// instruction was fetched from; the program counter already points
    /// behind the instruction. The four instructions that halt, stop or
    /// change the interrupt state change nothing here.
    pub open spec fn execute(self, instruction: Instruction, at: u16) -> Result<Machine, Fault> {
        match instruction {
            Instruction::Nop
            | Instruction::Halt
            | Instruction::Stop
            | Instruction::DisableInterrupts
            | Instruction::EnableInterrupts => Ok(self),
            Instruction::ComplementCarry => Ok(
                self.with_regs(with_carry(self.regs, !self.regs.flag(Flag::C))),
            ),
            Instruction::SetCarry => Ok(self.with_regs(with_carry(self.regs, true))),
            Instruction::Load8(dest, src) => self.load8(dest, src, 0),
            Instruction::Load8Inc(dest, src) => self.load8(dest, src, 1),
            Instruction::Load8Dec(dest, src) => self.load8(dest, src, -1),
            Instruction::Load16(dest, src) => Ok(self.with_regs(load16(self.regs, dest, src))),
            Instruction::Push(pair) => self.push(self.regs.read16(pair)),
            Instruction::Pop(pair) => self.pop(pair),
            Instruction::Add(src) => self.binary(BinaryOp::Add, src),
            Instruction::AddCarry(src) => self.binary(BinaryOp::AddCarry, src),
            Instruction::Sub(src) => self.binary(BinaryOp::Sub, src),
            Instruction::SubCarry(src) => self.binary(BinaryOp::SubCarry, src),
            Instruction::And(src) => self.binary(BinaryOp::And, src),
            Instruction::Or(src) => self.binary(BinaryOp::Or, src),
            Instruction::Xor(src) => self.binary(BinaryOp::Xor, src),
            Instruction::Compare(src) => self.binary(BinaryOp::Compare, src),
            Instruction::Increment(dest) => self.unary(UnaryOp::Increment, dest, false),
            Instruction::Decrement(dest) => self.unary(UnaryOp::Decrement, dest, false),
            Instruction::DecimalAdjust => self.unary(
                UnaryOp::DecimalAdjust,
                Dest8::Reg(Reg8::A),
                false,
            ),
            Instruction::Complement => self.unary(UnaryOp::Complement, Dest8::Reg(Reg8::A), false),
            Instruction::Add16(dest, src) => Ok(self.with_regs(add16(self.regs, dest, src))),
            Instruction::Increment16(pair) => Ok(self.with_regs(step16(self.regs, pair, 1))),
            Instruction::Decrement16(pair) => Ok(self.with_regs(step16(self.regs, pair, -1))),
            Instruction::RotateLeftA => self.unary(UnaryOp::RotateLeft, Dest8::Reg(Reg8::A), true),
            Instruction::RotateLeftACarry => self.unary(
                UnaryOp::RotateLeftCarry,
                Dest8::Reg(Reg8::A),
                true,
            ),
            Instruction::RotateRightA => self.unary(
                UnaryOp::RotateRight,
                Dest8::Reg(Reg8::A),
                true,
            ),
            Instruction::RotateRightACarry => self.unary(
                UnaryOp::RotateRightCarry,
                Dest8::Reg(Reg8::A),
                true,
            ),
            Instruction::RotateLeft(dest) => self.unary(UnaryOp::RotateLeft, dest, false),
            Instruction::RotateLeftCarry(dest) => self.unary(UnaryOp::RotateLeftCarry, dest, false),
            Instruction::RotateRight(dest) => self.unary(UnaryOp::RotateRight, dest, false),
            Instruction::RotateRightCarry(dest) => self.unary(
                UnaryOp::RotateRightCarry,
                dest,
                false,
            ),
            Instruction::ShiftLeft(dest) => self.unary(UnaryOp::ShiftLeft, dest, false),
            Instruction::ShiftRightLogical(dest) => self.unary(
                UnaryOp::ShiftRightLogical,
                dest,
                false,
            ),
            Instruction::ShiftRightArithmetic(dest) => self.unary(
                UnaryOp::ShiftRightArithmetic,
                dest,
                false,
            ),
            Instruction::Swap(dest) => self.unary(UnaryOp::Swap, dest, false),
            Instruction::TestBit(bit, dest) => self.unary(UnaryOp::TestBit(bit), dest, false),
            Instruction::SetBit(bit, dest) => self.unary(UnaryOp::SetBit(bit), dest, false),
            Instruction::ResetBit(bit, dest) => self.unary(UnaryOp::ResetBit(bit), dest, false),
            Instruction::Jump(src) => Ok(self.with_regs(jump(self.regs, src))),
            Instruction::JumpConditional(condition, src) => if holds(self.regs, condition) {
                Ok(self.with_regs(jump(self.regs, src)))
            } else {
                Ok(self)
            },
            Instruction::RelativeJump(offset) => Ok(
                self.with_regs(relative_jump(self.regs, offset)),
            ),
            Instruction::RelativeJumpConditional(condition, offset) => if holds(
                self.regs,
                condition,
            ) {
                Ok(self.with_regs(relative_jump(self.regs, offset)))
            } else {
                Ok(self)
            },
            Instruction::Call(addr) => self.call(addr),
            Instruction::CallConditional(condition, addr) => if holds(self.regs, condition) {
                self.call(addr)
            } else {
                Ok(self)
            },
            Instruction::Return => self.pop(Reg16::PC),
            Instruction::ReturnConditional(condition) => if holds(self.regs, condition) {
                self.pop(Reg16::PC)
            } else {
                Ok(self)
            },
            Instruction::Unknown(opcode, bitcode) => Err(
                Fault::UnknownInstruction { opcode, bitcode, pc: at },
            ),
        }
    }

    /// One tick: the instruction at the program counter is decoded, the
    /// program counter moves behind it, and the instruction is performed.
    pub open spec fn step(self) -> Result<Machine, Fault> {
        match Instruction::fetch(self.mem, self.regs.pc) {
            Err(fault) => Err(fault),
            Ok((instruction, next)) => self.with_regs(
                self.regs.write16(Reg16::PC, next),
            ).execute(instruction, self.regs.pc),
        }
    }
}

/// How the outcome of an operation shows: on success the machine is in the
/// expected state, on a fault the fault is returned and the machine is as it
/// was before.
pub open spec fn transition(
    expected: Result<Machine, Fault>,
    before: Machine,
    after: Machine,
    result: Result<(), Fault>,
) -> bool {
    match expected {
        Ok(machine) => result is Ok && after == machine,
        Err(fault) => result == Err::<(), Fault>(fault) && after == before,
    }
}

#[derive(Debug)]
pub struct Cpu {
    regs: Registers,
}

impl View for Cpu {
    type V = RegisterState;

    closed spec fn view(&self) -> RegisterState {
        self.regs@
    }
}

/// The machine that a processor and an address space make up.
pub open spec fn machine(cpu: &Cpu, mmu: &MMU) -> Machine {
    Machine { regs: cpu@, mem: mmu@ }
}

impl Cpu {
    /// A processor in the power-on state.
    pub fn new() -> (r: Cpu)
        ensures
            r@ == RegisterState::boot(),
    {
        Cpu { regs: Registers::new() }
    }

    /// A processor with the given registers.
    pub fn from_registers(regs: Registers) -> (r: Cpu)
        ensures
            r@ == regs@,
    {
        Cpu { regs }
    }

    /// The registers as they stand.
    pub fn registers(&self) -> (r: Registers)
        ensures
            r@ == self@,
    {
        self.regs
    }

    /// Performs one instruction: fetch, decode, commit of the program
    /// counter, execution. A fault leaves registers and memory as they were.
    pub fn tick(&mut self, mmu: &mut MMU) -> (r: Result<(), Fault>)
        requires
            old(mmu).wf(),
        ensures
            final(mmu).wf(),
            transition(
                machine(old(self), old(mmu)).step(),
                machine(old(self), old(mmu)),
                machine(final(self), final(mmu)),
                r,
            ),
    {
        let start: u16 = self.regs.read16(Reg16::PC);
        let mut cursor: u16 = start;
        let instruction = match Instruction::decode(mmu, &mut cursor) {
            Ok(instruction) => instruction,
            Err(fault) => {
                return Err(fault);
            },
        };
        let saved = self.regs;
        self.regs.write16(Reg16::PC, cursor);
        match self.handle_instruction(mmu, instruction, start) {
            Ok(()) => Ok(()),
            Err(fault) => {
                self.regs = saved;
                Err(fault)
            },
        }
    }

    /// Performs a decoded instruction that was fetched from `at`. The
    /// program counter is expected to point behind the instruction already.
    /// An unknown instruction is answered with a fault that carries its
    /// bytes and `at`.
    pub fn handle_instruction(&mut self, mmu: &mut MMU, instruction: Instruction, at: u16) -> (r:
        Result<(), Fault>)
        requires
            old(mmu).wf(),
        ensures
            final(mmu).wf(),
            transition(
                machine(old(self), old(mmu)).execute(instruction, at),
                machine(old(self), old(mmu)),
                machine(final(self), final(mmu)),
                r,
            ),
    {
        match instruction {
            Instruction::Nop => Ok(()),
            Instruction::Halt => Ok(()),
            Instruction::Stop => Ok(()),
            Instruction::DisableInterrupts => Ok(()),
            Instruction::EnableInterrupts => Ok(()),
            Instruction::ComplementCarry => {
                let carry = self.regs.get_flag(Flag::C);
                self.do_carry(!carry);
                Ok(())
            },
            Instruction::SetCarry => {
                self.do_carry(true);
                Ok(())
            },
            Instruction::Load8(dest, src) => self.do_load8(mmu, dest, src, 0),
            Instruction::Load8Inc(dest, src) => self.do_load8(mmu, dest, src, 1),
            Instruction::Load8Dec(dest, src) => self.do_load8(mmu, dest, src, -1),
            Instruction::Load16(dest, src) => {
                self.do_load16(dest, src);
                Ok(())
            },
            Instruction::Push(pair) => {
                let val: u16 = self.regs.read16(pair);
                self.do_push(mmu, val)
            },
            Instruction::Pop(pair) => self.do_pop(mmu, pair),
            Instruction::Add(src) => self.do_binary(mmu, BinaryOp::Add, src),
            Instruction::AddCarry(src) => self.do_binary(mmu, BinaryOp::AddCarry, src),
            Instruction::Sub(src) => self.do_binary(mmu, BinaryOp::Sub, src),
            Instruction::SubCarry(src) => self.do_binary(mmu, BinaryOp::SubCarry, src),
            Instruction::And(src) => self.do_binary(mmu, BinaryOp::And, src),
            Instruction::Or(src) => self.do_binary(mmu, BinaryOp::Or, src),
            Instruction::Xor(src) => self.do_binary(mmu, BinaryOp::Xor, src),
            Instruction::Compare(src) => self.do_binary(mmu, BinaryOp::Compare, src),
            Instruction::Increment(dest) => self.do_unary(mmu, UnaryOp::Increment, dest, false),
            Instruction::Decrement(dest) => self.do_unary(mmu, UnaryOp::Decrement, dest, false),
            Instruction::DecimalAdjust => self.do_unary(
                mmu,
                UnaryOp::DecimalAdjust,
                Dest8::Reg(Reg8::A),
                false,
            ),
            Instruction::Complement => self.do_unary(
                mmu,
                UnaryOp::Complement,
                Dest8::Reg(Reg8::A),
                false,
            ),
            Instruction::Add16(dest, src) => {
                self.do_add16(dest, src);
                Ok(())
            },
            Instruction::Increment16(pair) => {
                self.do_step16(pair, true);
                Ok(())
            },
            Instruction::Decrement16(pair) => {
                self.do_step16(pair, false);
                Ok(())
            },
            Instruction::RotateLeftA => self.do_unary(
                mmu,
                UnaryOp::RotateLeft,
                Dest8::Reg(Reg8::A),
                true,
            ),
            Instruction::RotateLeftACarry => self.do_unary(
                mmu,
                UnaryOp::RotateLeftCarry,
                Dest8::Reg(Reg8::A),
                true,
            ),
            Instruction::RotateRightA => self.do_unary(
                mmu,
                UnaryOp::RotateRight,
                Dest8::Reg(Reg8::A),
                true,
            ),
            Instruction::RotateRightACarry => self.do_unary(
                mmu,
                UnaryOp::RotateRightCarry,
                Dest8::Reg(Reg8::A),
                true,
            ),
            Instruction::RotateLeft(dest) => self.do_unary(mmu, UnaryOp::RotateLeft, dest, false),
            Instruction::RotateLeftCarry(dest) => self.do_unary(
                mmu,
                UnaryOp::RotateLeftCarry,
                dest,
                false,
            ),
            Instruction::RotateRight(dest) => self.do_unary(mmu, UnaryOp::RotateRight, dest, false),
            Instruction::RotateRightCarry(dest) => self.do_unary(
                mmu,
                UnaryOp::RotateRightCarry,
                dest,
                false,
            ),
            Instruction::ShiftLeft(dest) => self.do_unary(mmu, UnaryOp::ShiftLeft, dest, false),
            Instruction::ShiftRightLogical(dest) => self.do_unary(
                mmu,
                UnaryOp::ShiftRightLogical,
                dest,
                false,
            ),
            Instruction::ShiftRightArithmetic(dest) => self.do_unary(
                mmu,
                UnaryOp::ShiftRightArithmetic,
                dest,
                false,
            ),
            Instruction::Swap(dest) => self.do_unary(mmu, UnaryOp::Swap, dest, false),
            Instruction::TestBit(bit, dest) => self.do_unary(
                mmu,
                UnaryOp::TestBit(bit),
                dest,
                false,
            ),
            Instruction::SetBit(bit, dest) => self.do_unary(mmu, UnaryOp::SetBit(bit), dest, false),
            Instruction::ResetBit(bit, dest) => self.do_unary(
                mmu,
                UnaryOp::ResetBit(bit),
                dest,
                false,
            ),
            Instruction::Jump(src) => {
                self.do_jump(src);
                Ok(())
            },
            Instruction::JumpConditional(condition, src) => {
                if self.check_flag_state(condition) {
                    self.do_jump(src);
                }
                Ok(())
            },
            Instruction::RelativeJump(offset) => {
                self.do_relative_jump(offset);
                Ok(())
            },
            Instruction::RelativeJumpConditional(condition, offset) => {
                if self.check_flag_state(condition) {
                    self.do_relative_jump(offset);
                }
                Ok(())
            },
            Instruction::Call(addr) => self.do_call(mmu, addr),
            Instruction::CallConditional(condition, addr) => {
                if self.check_flag_state(condition) {
                    self.do_call(mmu, addr)
                } else {
                    Ok(())
                }
            },
            Instruction::Return => self.do_return(mmu),
            Instruction::ReturnConditional(condition) => {
                if self.check_flag_state(condition) {
                    self.do_return(mmu)
                } else {
                    Ok(())
                }
            },
            Instruction::Unknown(opcode, bitcode) => Err(
                Fault::UnknownInstruction { opcode, bitcode, pc: at },
            ),
        }
    }

    fn flags(&self) -> (r: FlagSet)
        ensures
            r == flags_of(self@),
    {
        FlagSet {
            zero: self.regs.get_flag(Flag::Z),
            subtract: self.regs.get_flag(Flag::S),
            half_carry: self.regs.get_flag(Flag::H),
            carry: self.regs.get_flag(Flag::C),
        }
    }

    fn operand_address(&self, src: Src8) -> (r: u16)
        ensures
            r == address_of(self@, src),
    {
        match src {
            Src8::Indir(pair) => self.regs.read16(pair),
            Src8::IndirHigh(reg) => 0xFF00 + (self.regs.read8(reg) as u16),
            Src8::Mem(addr) => addr,
            _ => 0,
        }
    }

    fn read_src8(&self, mmu: &MMU, src: Src8) -> (r: Result<u8, Fault>)
        requires
            mmu.wf(),
        ensures
            r == machine(self, mmu).read_src8(src),
    {
        match src {
            Src8::Imm(val) => Ok(val),
            Src8::Reg(reg) => Ok(self.regs.read8(reg)),
            _ => mmu.read8(self.operand_address(src)),
        }
    }

    fn read_dest8(&self, mmu: &MMU, dest: Dest8) -> (r: Result<u8, Fault>)
        requires
            mmu.wf(),
        ensures
            r == machine(self, mmu).read_src8(src_of(dest)),
    {
        match dest {
            Dest8::Reg(reg) => self.read_src8(mmu, Src8::Reg(reg)),
            Dest8::Indir(pair) => self.read_src8(mmu, Src8::Indir(pair)),
            Dest8::IndirHigh(reg) => self.read_src8(mmu, Src8::IndirHigh(reg)),
            Dest8::Mem(addr) => self.read_src8(mmu, Src8::Mem(addr)),
        }
    }

    fn write_dest8(&mut self, mmu: &mut MMU, dest: Dest8, val: u8) -> (r: Result<(), Fault>)
        requires
            old(mmu).wf(),
        ensures
            final(mmu).wf(),
            transition(
                machine(old(self), old(mmu)).write_dest8(dest, val),
                machine(old(self), old(mmu)),
                machine(final(self), final(mmu)),
                r,
            ),
    {
        match dest {
            Dest8::Reg(reg) => {
                self.regs.write8(reg, val);
                Ok(())
            },
            Dest8::Indir(pair) => mmu.write8(self.operand_address(Src8::Indir(pair)), val),
            Dest8::IndirHigh(reg) => mmu.write8(self.operand_address(Src8::IndirHigh(reg)), val),
            Dest8::Mem(addr) => mmu.write8(addr, val),
        }
    }

    fn read_src16(&self, src: Src16) -> (r: u16)
        ensures
            r == src16_value(self@, src),
    {
        match src {
            Src16::Imm(val) => val,
            Src16::Reg(pair) => self.regs.read16(pair),
            Src16::SPOffset(offset) => alu_offset(self.regs.read16(Reg16::SP), offset).value,
        }
    }

    fn check_flag_state(&self, condition: FlagState) -> (r: bool)
        ensures
            r == holds(self@, condition),
    {
        self.regs.get_flag(condition.flag) == condition.state
    }

    fn do_carry(&mut self, carry: bool)
        ensures
            final(self)@ == with_carry(old(self)@, carry),
    {
        let zero = self.regs.get_flag(Flag::Z);
        self.regs.set_flags(zero, false, false, carry);
    }

    fn do_step16(&mut self, pair: Reg16, up: bool)
        ensures
            final(self)@ == step16(
                old(self)@,
                pair,
                if up {
                    1
                } else {
                    -1
                },
            ),
    {
        let val: u16 = self.regs.read16(pair);
        let moved: u16 = if up {
            if val == 0xFFFF {
                0
            } else {
                val + 1
            }
        } else {
            if val == 0 {
                0xFFFF
            } else {
                val - 1
            }
        };
        self.regs.write16(pair, moved);
    }

    fn do_jump(&mut self, src: Src16)
        ensures
            final(self)@ == jump(old(self)@, src),
    {
        let addr: u16 = self.read_src16(src);
        self.regs.write16(Reg16::PC, addr);
    }

    fn do_relative_jump(&mut self, offset: i8)
        ensures
            final(self)@ == relative_jump(old(self)@, offset),
    {
        let addr: u16 = alu_offset(self.regs.read16(Reg16::PC), offset).value;
        self.regs.write16(Reg16::PC, addr);
    }

    fn do_load8(&mut self, mmu: &mut MMU, dest: Dest8, src: Src8, step: i8) -> (r: Result<
        (),
        Fault,
    >)
        requires
            old(mmu).wf(),
            -1 <= step <= 1,
        ensures
            final(mmu).wf(),
            transition(
                machine(old(self), old(mmu)).load8(dest, src, step as int),
                machine(old(self), old(mmu)),
                machine(final(self), final(mmu)),
                r,
            ),
    {
        proof {
            reveal(Machine::load8);
        }
        let val: u8 = match self.read_src8(mmu, src) {
            Ok(val) => val,
            Err(fault) => {
                return Err(fault);
            },
        };
        match self.write_dest8(mmu, dest, val) {
            Ok(()) => {},
            Err(fault) => {
                return Err(fault);
            },
        }
        if step != 0 {
            let hl: u16 = self.regs.read16(Reg16::HL);
            let moved: u16 = if step > 0 {
                if hl == 0xFFFF {
                    0
                } else {
                    hl + 1
                }
            } else {
                if hl == 0 {
                    0xFFFF
                } else {
                    hl - 1
                }
            };
            self.regs.write16(Reg16::HL, moved);
        }
        Ok(())
    }

    fn do_load16(&mut self, dest: Reg16, src: Src16)
        ensures
            final(self)@ == load16(old(self)@, dest, src),
    {
        match src {
            Src16::SPOffset(offset) => {
                let sum = alu_offset(self.regs.read16(Reg16::SP), offset);
                self.regs.set_flags(false, false, sum.half_carry, sum.carry);
                self.regs.write16(dest, sum.value);
            },
            _ => {
                let val: u16 = self.read_src16(src);
                self.regs.write16(dest, val);
            },
        }
    }

    fn do_add16(&mut self, dest: Reg16, src: Src16)
        ensures
            final(self)@ == add16(old(self)@, dest, src),
    {
        match src {
            Src16::SPOffset(offset) => {
                self.do_load16(dest, src);
            },
            _ => {
                let left: u16 = self.regs.read16(dest);
                let right: u16 = self.read_src16(src);
                let sum = alu_add16(left, right);
                self.regs.write16(dest, sum.value);
                let zero = self.regs.get_flag(Flag::Z);
                self.regs.set_flags(zero, false, sum.half_carry, sum.carry);
            },
        }
    }

    fn do_binary(&mut self, mmu: &mut MMU, op: BinaryOp, src: Src8) -> (r: Result<(), Fault>)
        requires
            old(mmu).wf(),
        ensures
            final(mmu).wf(),
            final(mmu)@ == old(mmu)@,
            transition(
                machine(old(self), old(mmu)).binary(op, src),
                machine(old(self), old(mmu)),
                machine(final(self), final(mmu)),
                r,
            ),
    {
        proof {
            reveal(Machine::binary);
        }
        let left: u8 = self.regs.read8(Reg8::A);
        let right: u8 = match self.read_src8(mmu, src) {
            Ok(val) => val,
            Err(fault) => {
                return Err(fault);
            },
        };
        let out = op.apply(left, right, self.regs.get_flag(Flag::C));
        if op.stores() {
            self.regs.write8(Reg8::A, out.value);
        }
        self.regs.set_flags(
            out.flags.zero,
            out.flags.subtract,
            out.flags.half_carry,
            out.flags.carry,
        );
        Ok(())
    }

    fn do_unary(&mut self, mmu: &mut MMU, op: UnaryOp, dest: Dest8, clear_zero: bool) -> (r:
        Result<(), Fault>)
        requires
            old(mmu).wf(),
        ensures
            final(mmu).wf(),
            transition(
                machine(old(self), old(mmu)).unary(op, dest, clear_zero),
                machine(old(self), old(mmu)),
                machine(final(self), final(mmu)),
                r,
            ),
    {
        proof {
            reveal(Machine::unary);
        }
        let val: u8 = match self.read_dest8(mmu, dest) {
            Ok(val) => val,
            Err(fault) => {
                return Err(fault);
            },
        };
        let out = op.apply(val, self.flags());
        if op.stores() {
            match self.write_dest8(mmu, dest, out.value) {
                Ok(()) => {},
                Err(fault) => {
                    return Err(fault);
                },
            }
        }
        self.regs.set_flags(
            out.flags.zero && !clear_zero,
            out.flags.subtract,
            out.flags.half_carry,
            out.flags.carry,
        );
        Ok(())
    }

    fn do_push(&mut self, mmu: &mut MMU, val: u16) -> (r: Result<(), Fault>)
        requires
            old(mmu).wf(),
        ensures
            final(mmu).wf(),
            transition(
                machine(old(self), old(mmu)).push(val),
                machine(old(self), old(mmu)),
                machine(final(self), final(mmu)),
                r,
            ),
    {
        proof {
            reveal(Machine::push);
        }
        let sp: u16 = self.regs.read16(Reg16::SP);
        let lowered: u16 = if sp >= 2 {
            sp - 2
        } else {
            sp + 0xFFFE
        };
        match mmu.write16(lowered, val) {
            Ok(()) => {
                self.regs.write16(Reg16::SP, lowered);
                Ok(())
            },
            Err(fault) => Err(fault),
        }
    }

    fn do_pop(&mut self, mmu: &mut MMU, pair: Reg16) -> (r: Result<(), Fault>)
        requires
            old(mmu).wf(),
        ensures
            final(mmu).wf(),
            final(mmu)@ == old(mmu)@,
            transition(
                machine(old(self), old(mmu)).pop(pair),
                machine(old(self), old(mmu)),
                machine(final(self), final(mmu)),
                r,
            ),
    {
        proof {
            reveal(Machine::pop);
        }
        let sp: u16 = self.regs.read16(Reg16::SP);
        let val: u16 = match mmu.read16(sp) {
            Ok(val) => val,
            Err(fault) => {
                return Err(fault);
            },
        };
        self.regs.write16(pair, val);
        self.regs.write16(
            Reg16::SP,
            if sp >= 0xFFFE {
                sp - 0xFFFE
            } else {
                sp + 2
            },
        );
        Ok(())
    }

    fn do_call(&mut self, mmu: &mut MMU, addr: u16) -> (r: Result<(), Fault>)
        requires
            old(mmu).wf(),
        ensures
            final(mmu).wf(),
            transition(
                machine(old(self), old(mmu)).call(addr),
                machine(old(self), old(mmu)),
                machine(final(self), final(mmu)),
                r,
            ),
    {
        proof {
            reveal(Machine::call);
        }
        let pc: u16 = self.regs.read16(Reg16::PC);
        match self.do_push(mmu, pc) {
            Ok(()) => {
                self.regs.write16(Reg16::PC, addr);
                Ok(())
            },
            Err(fault) => Err(fault),
        }
    }

    fn do_return(&mut self, mmu: &mut MMU) -> (r: Result<(), Fault>)
        requires
            old(mmu).wf(),
        ensures
            final(mmu).wf(),
            transition(
                machine(old(self), old(mmu)).pop(Reg16::PC),
                machine(old(self), old(mmu)),
                machine(final(self), final(mmu)),
                r,
            ),
    {
        self.do_pop(mmu, Reg16::PC)
    }
}

/// A push followed by a pop of the same register pair: the pop succeeds and
/// leaves every register, the pair and the stack pointer among them, as it
/// was before the push. Memory holds the pair's value at the two addresses
/// below the old stack pointer and is unchanged everywhere else.
pub proof fn lemma_push_pop(m: Machine, pair: Reg16, at: u16)
    requires
        m.mem.wf(),
        m.execute(Instruction::Push(pair), at) is Ok,
    ensures
        ({
            let pushed = m.execute(Instruction::Push(pair), at)->Ok_0;
            let popped = pushed.execute(Instruction::Pop(pair), at);
            let below = ((m.regs.sp - 2) % 65536) as u16;
            &&& popped is Ok
            &&& popped->Ok_0.regs == m.regs
            &&& popped->Ok_0.mem == pushed.mem
            &&& pushed.mem.wf()
            &&& pushed.regs.sp == below
            &&& pushed.mem.read16(below) == Ok::<u16, Fault>(m.regs.read16(pair))
            &&& forall|addr: u16|
                addr != below && addr != below + 1 ==> pushed.mem.read8(addr) == m.mem.read8(addr)
        }),
{
    reveal(Machine::push);
    reveal(Machine::pop);
    let below = ((m.regs.sp - 2) % 65536) as u16;
    let val = m.regs.read16(pair);
    lemma_write16_read16(m.mem, below, val);
    lemma_write16_of_read16(m.regs, pair);
}

/// A call followed by a return comes back to the address behind the call
/// with the stack pointer as it was.
pub proof fn lemma_call_return(m: Machine, addr: u16, at: u16)
    requires
        m.mem.wf(),
        m.execute(Instruction::Call(addr), at) is Ok,
    ensures
        ({
            let called = m.execute(Instruction::Call(addr), at)->Ok_0;
            let returned = called.execute(Instruction::Return, at);
            &&& called.regs.pc == addr
            &&& returned is Ok
            &&& returned->Ok_0.regs == m.regs
            &&& returned->Ok_0.mem == called.mem
        }),
{
    reveal(Machine::push);
    reveal(Machine::pop);
    reveal(Machine::call);
    let below = ((m.regs.sp - 2) % 65536) as u16;
    lemma_write16_read16(m.mem, below, m.regs.pc);
}

/// A conditional jump, call or return whose condition does not hold changes
/// nothing: the program counter stays behind the instruction.
pub proof fn lemma_condition_fails(m: Machine, condition: FlagState, instruction: Instruction, at: u16)
    requires
        !holds(m.regs, condition),
        match instruction {
            Instruction::JumpConditional(c, _) => c == condition,
            Instruction::RelativeJumpConditional(c, _) => c == condition,
            Instruction::CallConditional(c, _) => c == condition,
            Instruction::ReturnConditional(c) => c == condition,
            _ => false,
        },
    ensures
        m.execute(instruction, at) == Ok::<Machine, Fault>(m),
{
}

/// An operation on the accumulator and an operand never writes memory, sets
/// each flag to what the operation's outcome says, and stores the result in
/// the accumulator; a comparison leaves the accumulator as it was. No other
/// register changes.
pub proof fn lemma_binary_effect(m: Machine, op: BinaryOp, src: Src8)
    requires
        m.binary(op, src) is Ok,
    ensures
        ({
            let after = m.binary(op, src)->Ok_0;
            let out = op.spec_apply(m.regs.a, m.read_src8(src)->Ok_0, m.regs.flag(Flag::C));
            &&& after.mem == m.mem
            &&& flags_of(after.regs) == out.flags
            &&& after.regs.a == if op == BinaryOp::Compare {
                m.regs.a
            } else {
                out.value
            }
            &&& forall|reg: Reg8| reg != Reg8::A ==> after.regs.read8(reg) == m.regs.read8(reg)
            &&& after.regs.sp == m.regs.sp
            &&& after.regs.pc == m.regs.pc
        }),
{
    reveal(Machine::binary);
    let out = op.spec_apply(m.regs.a, m.read_src8(src)->Ok_0, m.regs.flag(Flag::C));
    let stored = if op.spec_stores() {
        m.regs.write8(Reg8::A, out.value)
    } else {
        m.regs
    };
    lemma_set_flags(
        stored,
        out.flags.zero,
        out.flags.subtract,
        out.flags.half_carry,
        out.flags.carry,
    );
}

/// Storing a value in a register and then setting the four flags: the
/// register holds the value, the flags read as given, nothing else changes.
pub proof fn lemma_store_and_flag(regs: RegisterState, reg: Reg8, value: u8, flags: FlagSet)
    ensures
        flags_of(with_flags(regs.write8(reg, value), flags)) == flags,
        flags_of(with_flags(regs, flags)) == flags,
        with_flags(regs.write8(reg, value), flags).read8(reg) == value,
        forall|other: Reg8|
            other != reg ==> with_flags(regs.write8(reg, value), flags).read8(other) == regs.read8(
                other,
            ),
        forall|other: Reg8| with_flags(regs, flags).read8(other) == regs.read8(other),
        with_flags(regs.write8(reg, value), flags).sp == regs.sp,
        with_flags(regs.write8(reg, value), flags).pc == regs.pc,
        with_flags(regs, flags).sp == regs.sp,
        with_flags(regs, flags).pc == regs.pc,
{
    lemma_write8_read8(regs, reg, value);
    lemma_set_flags(
        regs.write8(reg, value),
        flags.zero,
        flags.subtract,
        flags.half_carry,
        flags.carry,
    );
    lemma_set_flags(regs, flags.zero, flags.subtract, flags.half_carry, flags.carry);
}

/// An operation on a register: the register holds the operation's result
/// (its old value after a bit test), each flag is what the operation's
/// outcome says, and nothing else changes.
pub proof fn lemma_unary_on_register(m: Machine, op: UnaryOp, reg: Reg8)
    ensures
        m.unary(op, Dest8::Reg(reg), false) is Ok,
        ({
            let after = m.unary(op, Dest8::Reg(reg), false)->Ok_0;
            let out = op.spec_apply(m.regs.read8(reg), flags_of(m.regs));
            &&& after.mem == m.mem
            &&& flags_of(after.regs) == out.flags
            &&& after.regs.read8(reg) == out.value
            &&& forall|other: Reg8| other != reg ==> after.regs.read8(other) == m.regs.read8(other)
            &&& after.regs.sp == m.regs.sp
            &&& after.regs.pc == m.regs.pc
        }),
{
    reveal(Machine::unary);
    let out = op.spec_apply(m.regs.read8(reg), flags_of(m.regs));
    lemma_store_and_flag(m.regs, reg, out.value, out.flags);
    if !op.spec_stores() {
        lemma_untouched_flags(op, m.regs.read8(reg), flags_of(m.regs));
    }
}

/// The four rotations of the accumulator clear the zero flag whatever the
/// result, clear subtract and half-carry, and set carry from the bit that
/// left the accumulator.
pub proof fn lemma_accumulator_rotation(m: Machine, instruction: Instruction, at: u16)
    requires
        instruction is RotateLeftA || instruction is RotateLeftACarry
            || instruction is RotateRightA || instruction is RotateRightACarry,
    ensures
        m.execute(instruction, at) is Ok,
        ({
            let after = m.execute(instruction, at)->Ok_0;
            let left = instruction is RotateLeftA || instruction is RotateLeftACarry;
            &&& after.mem == m.mem
            &&& !after.regs.flag(Flag::Z)
            &&& !after.regs.flag(Flag::S)
            &&& !after.regs.flag(Flag::H)
            &&& after.regs.flag(Flag::C) == if left {
                m.regs.a >= 128
            } else {
                m.regs.a % 2 == 1
            }
        }),
{
    reveal(Machine::unary);
    let op = match instruction {
        Instruction::RotateLeftA => UnaryOp::RotateLeft,
        Instruction::RotateLeftACarry => UnaryOp::RotateLeftCarry,
        Instruction::RotateRightA => UnaryOp::RotateRight,
        _ => UnaryOp::RotateRightCarry,
    };
    let out = op.spec_apply(m.regs.a, flags_of(m.regs));
    lemma_set_flags(
        m.regs.write8(Reg8::A, out.value),
        false,
        out.flags.subtract,
        out.flags.half_carry,
        out.flags.carry,
    );
}

/// An instruction that no table row matches stops the machine: the tick
/// reports its bytes and the address it was fetched from.
pub proof fn lemma_unknown_is_fatal(m: Machine, opcode: u8, bitcode: u8)
    requires
        Instruction::fetch(m.mem, m.regs.pc) is Ok,
        Instruction::fetch(m.mem, m.regs.pc)->Ok_0.0 == Instruction::Unknown(opcode, bitcode),
    ensures
        m.step() == Err::<Machine, Fault>(
            Fault::UnknownInstruction { opcode, bitcode, pc: m.regs.pc },
        ),
{
}

/// Whether an instruction may set the program counter: the jumps, calls
/// and returns, and the 16-bit operations when they name it as their target.
pub open spec fn writes_pc(instruction: Instruction) -> bool {
    match instruction {
        Instruction::Jump(_)
        | Instruction::JumpConditional(_, _)
        | Instruction::RelativeJump(_)
        | Instruction::RelativeJumpConditional(_, _)
        | Instruction::Call(_)
        | Instruction::CallConditional(_, _)
        | Instruction::Return
        | Instruction::ReturnConditional(_) => true,
        Instruction::Load16(pair, _)
        | Instruction::Add16(pair, _)
        | Instruction::Pop(pair)
        | Instruction::Increment16(pair)
        | Instruction::Decrement16(pair) => pair == Reg16::PC,
        _ => false,
    }
}

/// Setting the flags changes neither the program counter nor the stack
/// pointer, and no register.
pub proof fn lemma_flags_keep_registers(regs: RegisterState, flags: FlagSet)
    ensures
        with_flags(regs, flags).pc == regs.pc,
        with_flags(regs, flags).sp == regs.sp,
        forall|reg: Reg8| with_flags(regs, flags).read8(reg) == regs.read8(reg),
{
    lemma_set_flags(regs, flags.zero, flags.subtract, flags.half_carry, flags.carry);
}

/// An 8-bit load leaves the program counter alone.
pub proof fn lemma_load8_keeps_pc(m: Machine, dest: Dest8, src: Src8, step: int)
    requires
        m.load8(dest, src, step) is Ok,
    ensures
        m.load8(dest, src, step)->Ok_0.regs.pc == m.regs.pc,
{
    reveal(Machine::load8);
}

/// An operation on one 8-bit cell leaves the program counter alone.
pub proof fn lemma_unary_keeps_pc(m: Machine, op: UnaryOp, dest: Dest8, clear_zero: bool)
    requires
        m.unary(op, dest, clear_zero) is Ok,
    ensures
        m.unary(op, dest, clear_zero)->Ok_0.regs.pc == m.regs.pc,
{
    reveal(Machine::unary);
    let out = op.spec_apply(m.read_src8(src_of(dest))->Ok_0, flags_of(m.regs));
    let flags = if clear_zero {
        FlagSet { zero: false, ..out.flags }
    } else {
        out.flags
    };
    if op.spec_stores() {
        lemma_flags_keep_registers(m.write_dest8(dest, out.value)->Ok_0.regs, flags);
    } else {
        lemma_flags_keep_registers(m.regs, flags);
    }
}

/// A 16-bit load, addition or step into a pair other than the program
/// counter, and the two carry instructions, leave the program counter alone.
pub proof fn lemma_wide_keeps_pc(regs: RegisterState, pair: Reg16, src: Src16, carry: bool)
    requires
        pair != Reg16::PC,
    ensures
        load16(regs, pair, src).pc == regs.pc,
        add16(regs, pair, src).pc == regs.pc,
        step16(regs, pair, 1).pc == regs.pc,
        step16(regs, pair, -1).pc == regs.pc,
        with_carry(regs, carry).pc == regs.pc,
{
    assert forall|r: RegisterState, flags: FlagSet| #[trigger] with_flags(r, flags).pc == r.pc by {
        lemma_flags_keep_registers(r, flags);
    }
}

/// An instruction that does not set the program counter leaves it alone.
pub proof fn lemma_execute_keeps_pc(m: Machine, instruction: Instruction, at: u16)
    requires
        !writes_pc(instruction),
        m.execute(instruction, at) is Ok,
    ensures
        m.execute(instruction, at)->Ok_0.regs.pc == m.regs.pc,
{
    match instruction {
        Instruction::Load8(dest, src) => lemma_load8_keeps_pc(m, dest, src, 0),
        Instruction::Load8Inc(dest, src) => lemma_load8_keeps_pc(m, dest, src, 1),
        Instruction::Load8Dec(dest, src) => lemma_load8_keeps_pc(m, dest, src, -1),
        Instruction::Add(src) => lemma_binary_effect(m, BinaryOp::Add, src),
        Instruction::AddCarry(src) => lemma_binary_effect(m, BinaryOp::AddCarry, src),
        Instruction::Sub(src) => lemma_binary_effect(m, BinaryOp::Sub, src),
        Instruction::SubCarry(src) => lemma_binary_effect(m, BinaryOp::SubCarry, src),
        Instruction::And(src) => lemma_binary_effect(m, BinaryOp::And, src),
        Instruction::Or(src) => lemma_binary_effect(m, BinaryOp::Or, src),
        Instruction::Xor(src) => lemma_binary_effect(m, BinaryOp::Xor, src),
        Instruction::Compare(src) => lemma_binary_effect(m, BinaryOp::Compare, src),
        Instruction::Increment(dest) => lemma_unary_keeps_pc(m, UnaryOp::Increment, dest, false),
        Instruction::Decrement(dest) => lemma_unary_keeps_pc(m, UnaryOp::Decrement, dest, false),
        Instruction::DecimalAdjust => lemma_unary_keeps_pc(
            m,
            UnaryOp::DecimalAdjust,
            Dest8::Reg(Reg8::A),
            false,
        ),
        Instruction::Complement => lemma_unary_keeps_pc(
            m,
            UnaryOp::Complement,
            Dest8::Reg(Reg8::A),
            false,
        ),
        Instruction::RotateLeftA => lemma_unary_keeps_pc(
            m,
            UnaryOp::RotateLeft,
            Dest8::Reg(Reg8::A),
            true,
        ),
        Instruction::RotateLeftACarry => lemma_unary_keeps_pc(
            m,
            UnaryOp::RotateLeftCarry,
            Dest8::Reg(Reg8::A),
            true,
        ),
        Instruction::RotateRightA => lemma_unary_keeps_pc(
            m,
            UnaryOp::RotateRight,
            Dest8::Reg(Reg8::A),
            true,
        ),
        Instruction::RotateRightACarry => lemma_unary_keeps_pc(
            m,
            UnaryOp::RotateRightCarry,
            Dest8::Reg(Reg8::A),
            true,
        ),
        Instruction::RotateLeft(dest) => lemma_unary_keeps_pc(m, UnaryOp::RotateLeft, dest, false),
        Instruction::RotateLeftCarry(dest) => lemma_unary_keeps_pc(
            m,
            UnaryOp::RotateLeftCarry,
            dest,
            false,
        ),
        Instruction::RotateRight(dest) => lemma_unary_keeps_pc(
            m,
            UnaryOp::RotateRight,
            dest,
            false,
        ),
        Instruction::RotateRightCarry(dest) => lemma_unary_keeps_pc(
            m,
            UnaryOp::RotateRightCarry,
            dest,
            false,
        ),
        Instruction::ShiftLeft(dest) => lemma_unary_keeps_pc(m, UnaryOp::ShiftLeft, dest, false),
        Instruction::ShiftRightLogical(dest) => lemma_unary_keeps_pc(
            m,
            UnaryOp::ShiftRightLogical,
            dest,
            false,
        ),
        Instruction::ShiftRightArithmetic(dest) => lemma_unary_keeps_pc(
            m,
            UnaryOp::ShiftRightArithmetic,
            dest,
            false,
        ),
        Instruction::Swap(dest) => lemma_unary_keeps_pc(m, UnaryOp::Swap, dest, false),
        Instruction::TestBit(bit, dest) => lemma_unary_keeps_pc(
            m,
            UnaryOp::TestBit(bit),
            dest,
            false,
        ),
        Instruction::SetBit(bit, dest) => lemma_unary_keeps_pc(
            m,
            UnaryOp::SetBit(bit),
            dest,
            false,
        ),
        Instruction::ResetBit(bit, dest) => lemma_unary_keeps_pc(
            m,
            UnaryOp::ResetBit(bit),
            dest,
            false,
        ),
        Instruction::Load16(pair, src) => lemma_wide_keeps_pc(m.regs, pair, src, false),
        Instruction::Add16(pair, src) => lemma_wide_keeps_pc(m.regs, pair, src, false),
        Instruction::Increment16(pair) => lemma_wide_keeps_pc(
            m.regs,
            pair,
            Src16::Imm(0),
            false,
        ),
        Instruction::Decrement16(pair) => lemma_wide_keeps_pc(
            m.regs,
            pair,
            Src16::Imm(0),
            false,
        ),
        Instruction::ComplementCarry => lemma_wide_keeps_pc(
            m.regs,
            Reg16::HL,
            Src16::Imm(0),
            !m.regs.flag(Flag::C),
        ),
        Instruction::SetCarry => lemma_wide_keeps_pc(m.regs, Reg16::HL, Src16::Imm(0), true),
        Instruction::Push(pair) => {
            reveal(Machine::push);
        },
        Instruction::Pop(pair) => {
            reveal(Machine::pop);
        },
        _ => {},
    }
}

/// The program counter after a tick: behind the instruction, unless the
/// instruction sets it; a jump or call that is taken wins over the advance.
pub proof fn lemma_program_counter_commit(m: Machine)
    requires
        m.step() is Ok,
    ensures
        ({
            let fetched = Instruction::fetch(m.mem, m.regs.pc)->Ok_0;
            let after = m.step()->Ok_0;
            &&& Instruction::fetch(m.mem, m.regs.pc) is Ok
            &&& !writes_pc(fetched.0) ==> after.regs.pc == fetched.1
            &&& fetched.0 matches Instruction::Jump(Src16::Imm(addr)) ==> after.regs.pc == addr
            &&& fetched.0 matches Instruction::Call(addr) ==> after.regs.pc == addr
            &&& fetched.0 matches Instruction::RelativeJump(offset) ==> after.regs.pc == ((
            fetched.1 + offset) % 65536) as u16
        }),
{
    let fetched = Instruction::fetch(m.mem, m.regs.pc)->Ok_0;
    let start = m.with_regs(m.regs.write16(Reg16::PC, fetched.1));
    if !writes_pc(fetched.0) {
        lemma_execute_keeps_pc(start, fetched.0, m.regs.pc);
    }
    reveal(Machine::call);
    reveal(Machine::push);
}

} // verus!
