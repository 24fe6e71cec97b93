//! The instruction set and its decoder.
//!
//! An opcode is classified by matching its eight bits, most significant
//! first, against a table whose rows are tried from the top: rows that fix
//! every bit stand above rows that leave some open. One opcode is the
//! escape into a second table, which classifies the byte that follows it.

use vstd::prelude::*;

use crate::fault::{Access, Fault};
use crate::mmu::{MemoryView, MMU};
use crate::z80::registers::{Flag, Reg16, Reg8};

verus! {

/// Where an 8-bit operand is read from.
#[derive(Copy, Clone, Debug, PartialEq, Eq, Structural)]
pub enum Src8 {
    /// The byte itself.
    Imm(u8),
    /// A register.
    Reg(Reg8),
    /// The memory cell whose address a register pair holds.
    Indir(Reg16),
    /// The memory cell in the highest page whose low address byte a
    /// register holds.
    IndirHigh(Reg8),
    /// The memory cell at an absolute address.
    Mem(u16),
}

/// Where an 8-bit result is written to, and read from by the operations
/// that change a cell in place.
#[derive(Copy, Clone, Debug, PartialEq, Eq, Structural)]
pub enum Dest8 {
    Reg(Reg8),
    Indir(Reg16),
    IndirHigh(Reg8),
    Mem(u16),
}

/// Where a 16-bit operand is read from.
#[derive(Copy, Clone, Debug, PartialEq, Eq, Structural)]
pub enum Src16 {
    Imm(u16),
    Reg(Reg16),
    /// The stack pointer plus a signed displacement.
    SPOffset(i8),
}

/// A condition on one flag: it holds when the flag is in the given state.
#[derive(Copy, Clone, Debug, PartialEq, Eq, Structural)]
pub struct FlagState {
    pub flag: Flag,
    pub state: bool,
}

#[derive(Copy, Clone, Debug, PartialEq, Eq, Structural)]
pub enum Instruction {
    ComplementCarry,
    SetCarry,
    Nop,
    Halt,
    Stop,
    DisableInterrupts,
    EnableInterrupts,
    Load8(Dest8, Src8),
    Load8Inc(Dest8, Src8),
    Load8Dec(Dest8, Src8),
    Load16(Reg16, Src16),
    Push(Reg16),
    Pop(Reg16),
    Add(Src8),
    AddCarry(Src8),
    Sub(Src8),
    SubCarry(Src8),
    And(Src8),
    Or(Src8),
    Xor(Src8),
    Compare(Src8),
    Increment(Dest8),
    Decrement(Dest8),
    DecimalAdjust,
    Complement,
    Add16(Reg16, Src16),
    Increment16(Reg16),
    Decrement16(Reg16),
    RotateLeftA,
    RotateLeftACarry,
    RotateRightA,
    RotateRightACarry,
    RotateLeft(Dest8),
    RotateLeftCarry(Dest8),
    RotateRight(Dest8),
    RotateRightCarry(Dest8),
    ShiftLeft(Dest8),
    ShiftRightLogical(Dest8),
    ShiftRightArithmetic(Dest8),
    Swap(Dest8),
    TestBit(u8, Dest8),
    SetBit(u8, Dest8),
    ResetBit(u8, Dest8),
    Jump(Src16),
    JumpConditional(FlagState, Src16),
    RelativeJump(i8),
    RelativeJumpConditional(FlagState, i8),
    Call(u16),
    CallConditional(FlagState, u16),
    Return,
    ReturnConditional(FlagState),
    /// A byte that no row of the table matches, with the byte after it
    /// where the table asked for one.
    Unknown(u8, u8),
}

/// The eight bits of a byte, most significant first.
pub open spec fn spec_bits(n: u8) -> (u8, u8, u8, u8, u8, u8, u8, u8) {
    (
        ((n / 128) % 2) as u8,
        ((n / 64) % 2) as u8,
        ((n / 32) % 2) as u8,
        ((n / 16) % 2) as u8,
        ((n / 8) % 2) as u8,
        ((n / 4) % 2) as u8,
        ((n / 2) % 2) as u8,
        (n % 2) as u8,
    )
}

/// The 16-bit value with the given low and high byte.
pub open spec fn spec_u16_val(lower: u8, upper: u8) -> u16 {
    (upper * 256 + lower) as u16
}

/// A byte read as a signed number in two's complement.
pub open spec fn spec_signed(byte: u8) -> i8 {
    if byte < 128 {
        byte as i8
    } else {
        (byte - 256) as i8
    }
}

/// The register that the low three bits of `code` select. The code 6
/// selects no register.
pub open spec fn spec_reg8(code: u8) -> Option<Reg8> {
    let sel = code % 8;
    if sel == 0 {
        Some(Reg8::B)
    } else if sel == 1 {
        Some(Reg8::C)
    } else if sel == 2 {
        Some(Reg8::D)
    } else if sel == 3 {
        Some(Reg8::E)
    } else if sel == 4 {
        Some(Reg8::H)
    } else if sel == 5 {
        Some(Reg8::L)
    } else if sel == 7 {
        Some(Reg8::A)
    } else {
        None
    }
}

/// The 8-bit operand that the low three bits of `code` select: a register,
/// or for the code 6 the memory cell that HL points to.
pub open spec fn spec_dest_operand(code: u8) -> Dest8 {
    match spec_reg8(code) {
        Some(reg) => Dest8::Reg(reg),
        None => Dest8::Indir(Reg16::HL),
    }
}

/// As `spec_dest_operand`, for an operand that is only read.
pub open spec fn spec_src_operand(code: u8) -> Src8 {
    match spec_reg8(code) {
        Some(reg) => Src8::Reg(reg),
        None => Src8::Indir(Reg16::HL),
    }
}

/// The register pair that the low two bits of `code` select; the code 3
/// selects `high`.
pub open spec fn spec_pair_operand(code: u8, high: Reg16) -> Reg16 {
    let sel = code % 4;
    if sel == 0 {
        Reg16::BC
    } else if sel == 1 {
        Reg16::DE
    } else if sel == 2 {
        Reg16::HL
    } else {
        high
    }
}

/// The condition that the low two bits of `code` select: zero clear, zero
/// set, carry clear, carry set.
pub open spec fn spec_condition(code: u8) -> FlagState {
    let sel = code % 4;
    if sel == 0 {
        FlagState { flag: Flag::Z, state: false }
    } else if sel == 1 {
        FlagState { flag: Flag::Z, state: true }
    } else if sel == 2 {
        FlagState { flag: Flag::C, state: false }
    } else {
        FlagState { flag: Flag::C, state: true }
    }
}

proof fn lemma_bits(n: u8)
    by (bit_vector)
    ensures
        n >> 7 & 1 == (n / 128) % 2,
        n >> 6 & 1 == (n / 64) % 2,
        n >> 5 & 1 == (n / 32) % 2,
        n >> 4 & 1 == (n / 16) % 2,
        n >> 3 & 1 == (n / 8) % 2,
        n >> 2 & 1 == (n / 4) % 2,
        n >> 1 & 1 == (n / 2) % 2,
        n >> 0 & 1 == n % 2,
{
}

proof fn lemma_u16_val(lower: u8, upper: u8)
    by (bit_vector)
    ensures
        (lower as u16) + ((upper as u16) << 8) == upper * 256 + lower,
{
}

pub fn bits(n: u8) -> (r: (u8, u8, u8, u8, u8, u8, u8, u8))
    ensures
        r == spec_bits(n),
{
    proof {
        lemma_bits(n);
    }
    (n >> 7 & 1, n >> 6 & 1, n >> 5 & 1, n >> 4 & 1, n >> 3 & 1, n >> 2 & 1, n >> 1 & 1, n >> 0 & 1)
}

pub fn u16_val(lower: u8, upper: u8) -> (r: u16)
    ensures
        r == spec_u16_val(lower, upper),
{
    proof {
        lemma_u16_val(lower, upper);
    }
    (lower as u16) + ((upper as u16) << 8)
}

/// A byte read as a signed number in two's complement.
pub fn signed(byte: u8) -> (r: i8)
    ensures
        r == spec_signed(byte),
{
    if byte < 128 {
        byte as i8
    } else {
        (byte as i16 - 256) as i8
    }
}

pub fn dest_operand(code: u8) -> (r: Dest8)
    ensures
        r == spec_dest_operand(code),
{
    let sel: u8 = code % 8;
    if sel == 0 {
        Dest8::Reg(Reg8::B)
    } else if sel == 1 {
        Dest8::Reg(Reg8::C)
    } else if sel == 2 {
        Dest8::Reg(Reg8::D)
    } else if sel == 3 {
        Dest8::Reg(Reg8::E)
    } else if sel == 4 {
        Dest8::Reg(Reg8::H)
    } else if sel == 5 {
        Dest8::Reg(Reg8::L)
    } else if sel == 7 {
        Dest8::Reg(Reg8::A)
    } else {
        Dest8::Indir(Reg16::HL)
    }
}

pub fn src_operand(code: u8) -> (r: Src8)
    ensures
        r == spec_src_operand(code),
{
    match dest_operand(code) {
        Dest8::Reg(reg) => Src8::Reg(reg),
        Dest8::Indir(pair) => Src8::Indir(pair),
        Dest8::IndirHigh(reg) => Src8::IndirHigh(reg),
        Dest8::Mem(addr) => Src8::Mem(addr),
    }
}

pub fn pair_operand(code: u8, high: Reg16) -> (r: Reg16)
    ensures
        r == spec_pair_operand(code, high),
{
    let sel: u8 = code % 4;
    if sel == 0 {
        Reg16::BC
    } else if sel == 1 {
        Reg16::DE
    } else if sel == 2 {
        Reg16::HL
    } else {
        high
    }
}

pub fn condition(code: u8) -> (r: FlagState)
    ensures
        r == spec_condition(code),
{
    let sel: u8 = code % 4;
    if sel == 0 {
        FlagState { flag: Flag::Z, state: false }
    } else if sel == 1 {
        FlagState { flag: Flag::Z, state: true }
    } else if sel == 2 {
        FlagState { flag: Flag::C, state: false }
    } else {
        FlagState { flag: Flag::C, state: true }
    }
}

impl Instruction {
    /// The number of bytes that the instruction with the given opcode
    /// occupies: the opcode and the operand bytes that follow it.
    pub open spec fn spec_length(opcode: u8) -> u16 {
        match spec_bits(opcode) {
            (0, 0, 0, 1, 0, 0, 0, 0)
            | (0, 0, _, _, _, 1, 1, 0)
            | (1, 1, 1, _, 0, 0, 0, 0)
            | (1, 1, 1, _, 1, 0, 0, 0)
            | (1, 1, _, _, _, 1, 1, 0)
            | (1, 1, 0, 0, 1, 0, 1, 1)
            | (0, 0, 0, 1, 1, 0, 0, 0)
            | (0, 0, 1, _, _, 0, 0, 0) => 2,
            (1, 1, 1, _, 1, 0, 1, 0)
            | (0, 0, _, _, 0, 0, 0, 1)
            | (1, 1, 0, 0, 0, 0, 1, 1)
            | (1, 1, 0, _, _, 0, 1, 0)
            | (1, 1, 0, 0, 1, 1, 0, 1)
            | (1, 1, 0, _, _, 1, 0, 0) => 3,
            _ => 1,
        }
    }

    /// The instruction that an opcode and the two bytes after it stand for.
    /// Only the first `spec_length(opcode) - 1` of the two bytes count. Behind
    /// the escape opcode the first of them is classified by the second
    /// table.
    pub open spec fn spec_classify(opcode: u8, b1: u8, b2: u8) -> Instruction {
        match spec_bits(opcode) {
            (0, 0, 1, 1, 1, 1, 1, 1) => Instruction::ComplementCarry,
            (0, 0, 1, 1, 0, 1, 1, 1) => Instruction::SetCarry,
            (0, 0, 0, 0, 0, 0, 0, 0) => Instruction::Nop,
            (0, 1, 1, 1, 0, 1, 1, 0) => Instruction::Halt,
            (0, 0, 0, 1, 0, 0, 0, 0) => if b1 == 0 { Instruction::Stop } else { Instruction::Unknown(opcode, b1) },
            (1, 1, 1, 1, 0, 0, 1, 1) => Instruction::DisableInterrupts,
            (1, 1, 1, 1, 1, 0, 1, 1) => Instruction::EnableInterrupts,
            (0, 0, 0, 0, 1, 0, 1, 0) => Instruction::Load8(Dest8::Reg(Reg8::A), Src8::Indir(Reg16::BC)),
            (0, 0, 0, 1, 1, 0, 1, 0) => Instruction::Load8(Dest8::Reg(Reg8::A), Src8::Indir(Reg16::DE)),
            (0, 0, 0, 0, 0, 0, 1, 0) => Instruction::Load8(Dest8::Indir(Reg16::BC), Src8::Reg(Reg8::A)),
            (0, 0, 0, 1, 0, 0, 1, 0) => Instruction::Load8(Dest8::Indir(Reg16::DE), Src8::Reg(Reg8::A)),
            (1, 1, 1, 1, 1, 0, 1, 0) => Instruction::Load8(Dest8::Reg(Reg8::A), Src8::Mem(spec_u16_val(b1, b2))),
            (1, 1, 1, 1, 0, 0, 0, 0) => Instruction::Load8(Dest8::Reg(Reg8::A), Src8::Mem(spec_u16_val(b1, 0xFF))),
            (1, 1, 1, 1, 0, 0, 1, 0) => Instruction::Load8(Dest8::Reg(Reg8::A), Src8::IndirHigh(Reg8::C)),
            (1, 1, 1, 0, 1, 0, 1, 0) => Instruction::Load8(Dest8::Mem(spec_u16_val(b1, b2)), Src8::Reg(Reg8::A)),
            (1, 1, 1, 0, 0, 0, 0, 0) => Instruction::Load8(Dest8::Mem(spec_u16_val(b1, 0xFF)), Src8::Reg(Reg8::A)),
            (1, 1, 1, 0, 0, 0, 1, 0) => Instruction::Load8(Dest8::IndirHigh(Reg8::C), Src8::Reg(Reg8::A)),
            (0, 0, 1, 0, 0, 0, 1, 0) => Instruction::Load8Inc(Dest8::Indir(Reg16::HL), Src8::Reg(Reg8::A)),
            (0, 0, 1, 0, 1, 0, 1, 0) => Instruction::Load8Inc(Dest8::Reg(Reg8::A), Src8::Indir(Reg16::HL)),
            (0, 0, 1, 1, 0, 0, 1, 0) => Instruction::Load8Dec(Dest8::Indir(Reg16::HL), Src8::Reg(Reg8::A)),
            (0, 0, 1, 1, 1, 0, 1, 0) => Instruction::Load8Dec(Dest8::Reg(Reg8::A), Src8::Indir(Reg16::HL)),
            (0, 0, _, _, _, 1, 1, 0) => Instruction::Load8(spec_dest_operand((opcode / 8) as u8), Src8::Imm(b1)),
            (0, 1, _, _, _, _, _, _) => Instruction::Load8(spec_dest_operand((opcode / 8) as u8), spec_src_operand(opcode)),
            (1, 1, 1, 1, 1, 0, 0, 1) => Instruction::Load16(Reg16::SP, Src16::Reg(Reg16::HL)),
            (0, 0, _, _, 0, 0, 0, 1) => Instruction::Load16(spec_pair_operand((opcode / 16) as u8, Reg16::SP), Src16::Imm(spec_u16_val(b1, b2))),
            (1, 1, 1, 1, 1, 0, 0, 0) => Instruction::Load16(Reg16::HL, Src16::SPOffset(spec_signed(b1))),
            (1, 1, _, _, 0, 1, 0, 1) => Instruction::Push(spec_pair_operand((opcode / 16) as u8, Reg16::AF)),
            (1, 1, _, _, 0, 0, 0, 1) => Instruction::Pop(spec_pair_operand((opcode / 16) as u8, Reg16::AF)),
            (1, 1, 0, 0, 0, 1, 1, 0) => Instruction::Add(Src8::Imm(b1)),
            (1, 0, 0, 0, 0, _, _, _) => Instruction::Add(spec_src_operand(opcode)),
            (1, 1, 0, 0, 1, 1, 1, 0) => Instruction::AddCarry(Src8::Imm(b1)),
            (1, 0, 0, 0, 1, _, _, _) => Instruction::AddCarry(spec_src_operand(opcode)),
            (1, 1, 0, 1, 0, 1, 1, 0) => Instruction::Sub(Src8::Imm(b1)),
            (1, 0, 0, 1, 0, _, _, _) => Instruction::Sub(spec_src_operand(opcode)),
            (1, 1, 0, 1, 1, 1, 1, 0) => Instruction::SubCarry(Src8::Imm(b1)),
            (1, 0, 0, 1, 1, _, _, _) => Instruction::SubCarry(spec_src_operand(opcode)),
            (1, 1, 1, 0, 0, 1, 1, 0) => Instruction::And(Src8::Imm(b1)),
            (1, 0, 1, 0, 0, _, _, _) => Instruction::And(spec_src_operand(opcode)),
            (1, 1, 1, 1, 0, 1, 1, 0) => Instruction::Or(Src8::Imm(b1)),
            (1, 0, 1, 1, 0, _, _, _) => Instruction::Or(spec_src_operand(opcode)),
            (1, 1, 1, 0, 1, 1, 1, 0) => Instruction::Xor(Src8::Imm(b1)),
            (1, 0, 1, 0, 1, _, _, _) => Instruction::Xor(spec_src_operand(opcode)),
            (1, 1, 1, 1, 1, 1, 1, 0) => Instruction::Compare(Src8::Imm(b1)),
            (1, 0, 1, 1, 1, _, _, _) => Instruction::Compare(spec_src_operand(opcode)),
            (0, 0, _, _, _, 1, 0, 0) => Instruction::Increment(spec_dest_operand((opcode / 8) as u8)),
            (0, 0, _, _, _, 1, 0, 1) => Instruction::Decrement(spec_dest_operand((opcode / 8) as u8)),
            (0, 0, 1, 0, 0, 1, 1, 1) => Instruction::DecimalAdjust,
            (0, 0, 1, 0, 1, 1, 1, 1) => Instruction::Complement,
            (1, 1, 1, 0, 1, 0, 0, 0) => Instruction::Add16(Reg16::SP, Src16::SPOffset(spec_signed(b1))),
            (0, 0, _, _, 1, 0, 0, 1) => Instruction::Add16(Reg16::HL, Src16::Reg(spec_pair_operand((opcode / 16) as u8, Reg16::SP))),
            (0, 0, _, _, 0, 0, 1, 1) => Instruction::Increment16(spec_pair_operand((opcode / 16) as u8, Reg16::SP)),
            (0, 0, _, _, 1, 0, 1, 1) => Instruction::Decrement16(spec_pair_operand((opcode / 16) as u8, Reg16::SP)),
            (0, 0, 0, 0, 0, 1, 1, 1) => Instruction::RotateLeftA,
            (0, 0, 0, 1, 0, 1, 1, 1) => Instruction::RotateLeftACarry,
            (0, 0, 0, 0, 1, 1, 1, 1) => Instruction::RotateRightA,
            (0, 0, 0, 1, 1, 1, 1, 1) => Instruction::RotateRightACarry,
            (1, 1, 0, 0, 1, 0, 1, 1) => Self::spec_classify_extended(opcode, b1),
            (1, 1, 0, 0, 0, 0, 1, 1) => Instruction::Jump(Src16::Imm(spec_u16_val(b1, b2))),
            (1, 1, 1, 0, 1, 0, 0, 1) => Instruction::Jump(Src16::Reg(Reg16::HL)),
            (1, 1, 0, _, _, 0, 1, 0) => Instruction::JumpConditional(spec_condition((opcode / 8) as u8), Src16::Imm(spec_u16_val(b1, b2))),
            (0, 0, 0, 1, 1, 0, 0, 0) => Instruction::RelativeJump(spec_signed(b1)),
            (0, 0, 1, _, _, 0, 0, 0) => Instruction::RelativeJumpConditional(spec_condition((opcode / 8) as u8), spec_signed(b1)),
            (1, 1, 0, 0, 1, 1, 0, 1) => Instruction::Call(spec_u16_val(b1, b2)),
            (1, 1, 0, _, _, 1, 0, 0) => Instruction::CallConditional(spec_condition((opcode / 8) as u8), spec_u16_val(b1, b2)),
            (1, 1, 0, 0, 1, 0, 0, 1) => Instruction::Return,
            (1, 1, 0, _, _, 0, 0, 0) => Instruction::ReturnConditional(spec_condition((opcode / 8) as u8)),
            _ => Instruction::Unknown(opcode, 0),
        }
    }

    /// The instruction that a byte behind the escape opcode stands for: its
    /// low three bits select the operand, and for the three bit operations
    /// the next three bits give the index of the bit.
    pub open spec fn spec_classify_extended(opcode: u8, bitcode: u8) -> Instruction {
        match spec_bits(bitcode) {
            (0, 0, 0, 0, 0, _, _, _) => Instruction::RotateLeft(spec_dest_operand(bitcode)),
            (0, 0, 0, 1, 0, _, _, _) => Instruction::RotateLeftCarry(spec_dest_operand(bitcode)),
            (0, 0, 0, 0, 1, _, _, _) => Instruction::RotateRight(spec_dest_operand(bitcode)),
            (0, 0, 0, 1, 1, _, _, _) => Instruction::RotateRightCarry(spec_dest_operand(bitcode)),
            (0, 0, 1, 0, 0, _, _, _) => Instruction::ShiftLeft(spec_dest_operand(bitcode)),
            (0, 0, 1, 0, 1, _, _, _) => Instruction::ShiftRightArithmetic(spec_dest_operand(bitcode)),
            (0, 0, 1, 1, 1, _, _, _) => Instruction::ShiftRightLogical(spec_dest_operand(bitcode)),
            (0, 0, 1, 1, 0, _, _, _) => Instruction::Swap(spec_dest_operand(bitcode)),
            (0, 1, _, _, _, _, _, _) => Instruction::TestBit(((bitcode / 8) % 8) as u8, spec_dest_operand(bitcode)),
            (1, 1, _, _, _, _, _, _) => Instruction::SetBit(((bitcode / 8) % 8) as u8, spec_dest_operand(bitcode)),
            (1, 0, _, _, _, _, _, _) => Instruction::ResetBit(((bitcode / 8) % 8) as u8, spec_dest_operand(bitcode)),
            _ => Instruction::Unknown(opcode, bitcode),
        }
    }

    /// What decoding at `pc` gives: the instruction and the address behind
    /// it, or the fault of the first of its bytes that cannot be read.
    pub open spec fn fetch(mem: MemoryView, pc: u16) -> Result<(Instruction, u16), Fault> {
        if !mem.readable(pc) {
            Err(Fault::Address { addr: pc, access: Access::Read })
        } else {
            let opcode = mem.byte_at(pc);
            let length = Self::spec_length(opcode);
            let pc1 = (pc + 1) as u16;
            let pc2 = (pc + 2) as u16;
            if length >= 2 && !mem.readable(pc1) {
                Err(Fault::Address { addr: pc1, access: Access::Read })
            } else if length >= 3 && !mem.readable(pc2) {
                Err(Fault::Address { addr: pc2, access: Access::Read })
            } else {
                let b1 = if length >= 2 {
                    mem.byte_at(pc1)
                } else {
                    0
                };
                let b2 = if length >= 3 {
                    mem.byte_at(pc2)
                } else {
                    0
                };
                Ok((Self::spec_classify(opcode, b1, b2), (pc + length) as u16))
            }
        }
    }

    /// The number of bytes that the instruction with the given opcode
    /// occupies.
    pub fn length(opcode: u8) -> (r: u16)
        ensures
            r == Self::spec_length(opcode),
            1 <= r <= 3,
    {
        match bits(opcode) {
            (0, 0, 0, 1, 0, 0, 0, 0)
            | (0, 0, _, _, _, 1, 1, 0)
            | (1, 1, 1, _, 0, 0, 0, 0)
            | (1, 1, 1, _, 1, 0, 0, 0)
            | (1, 1, _, _, _, 1, 1, 0)
            | (1, 1, 0, 0, 1, 0, 1, 1)
            | (0, 0, 0, 1, 1, 0, 0, 0)
            | (0, 0, 1, _, _, 0, 0, 0) => 2,
            (1, 1, 1, _, 1, 0, 1, 0)
            | (0, 0, _, _, 0, 0, 0, 1)
            | (1, 1, 0, 0, 0, 0, 1, 1)
            | (1, 1, 0, _, _, 0, 1, 0)
            | (1, 1, 0, 0, 1, 1, 0, 1)
            | (1, 1, 0, _, _, 1, 0, 0) => 3,
            _ => 1,
        }
    }

    /// Classifies an opcode, given the two bytes after it.
    pub fn classify(opcode: u8, b1: u8, b2: u8) -> (r: Instruction)
        ensures
            r == Self::spec_classify(opcode, b1, b2),
    {
        match bits(opcode) {
            (0, 0, 1, 1, 1, 1, 1, 1) => Instruction::ComplementCarry,
            (0, 0, 1, 1, 0, 1, 1, 1) => Instruction::SetCarry,
            (0, 0, 0, 0, 0, 0, 0, 0) => Instruction::Nop,
            (0, 1, 1, 1, 0, 1, 1, 0) => Instruction::Halt,
            (0, 0, 0, 1, 0, 0, 0, 0) => if b1 == 0 { Instruction::Stop } else { Instruction::Unknown(opcode, b1) },
            (1, 1, 1, 1, 0, 0, 1, 1) => Instruction::DisableInterrupts,
            (1, 1, 1, 1, 1, 0, 1, 1) => Instruction::EnableInterrupts,
            (0, 0, 0, 0, 1, 0, 1, 0) => Instruction::Load8(Dest8::Reg(Reg8::A), Src8::Indir(Reg16::BC)),
            (0, 0, 0, 1, 1, 0, 1, 0) => Instruction::Load8(Dest8::Reg(Reg8::A), Src8::Indir(Reg16::DE)),
            (0, 0, 0, 0, 0, 0, 1, 0) => Instruction::Load8(Dest8::Indir(Reg16::BC), Src8::Reg(Reg8::A)),
            (0, 0, 0, 1, 0, 0, 1, 0) => Instruction::Load8(Dest8::Indir(Reg16::DE), Src8::Reg(Reg8::A)),
            (1, 1, 1, 1, 1, 0, 1, 0) => Instruction::Load8(Dest8::Reg(Reg8::A), Src8::Mem(u16_val(b1, b2))),
            (1, 1, 1, 1, 0, 0, 0, 0) => Instruction::Load8(Dest8::Reg(Reg8::A), Src8::Mem(u16_val(b1, 0xFF))),
            (1, 1, 1, 1, 0, 0, 1, 0) => Instruction::Load8(Dest8::Reg(Reg8::A), Src8::IndirHigh(Reg8::C)),
            (1, 1, 1, 0, 1, 0, 1, 0) => Instruction::Load8(Dest8::Mem(u16_val(b1, b2)), Src8::Reg(Reg8::A)),
            (1, 1, 1, 0, 0, 0, 0, 0) => Instruction::Load8(Dest8::Mem(u16_val(b1, 0xFF)), Src8::Reg(Reg8::A)),
            (1, 1, 1, 0, 0, 0, 1, 0) => Instruction::Load8(Dest8::IndirHigh(Reg8::C), Src8::Reg(Reg8::A)),
            (0, 0, 1, 0, 0, 0, 1, 0) => Instruction::Load8Inc(Dest8::Indir(Reg16::HL), Src8::Reg(Reg8::A)),
            (0, 0, 1, 0, 1, 0, 1, 0) => Instruction::Load8Inc(Dest8::Reg(Reg8::A), Src8::Indir(Reg16::HL)),
            (0, 0, 1, 1, 0, 0, 1, 0) => Instruction::Load8Dec(Dest8::Indir(Reg16::HL), Src8::Reg(Reg8::A)),
            (0, 0, 1, 1, 1, 0, 1, 0) => Instruction::Load8Dec(Dest8::Reg(Reg8::A), Src8::Indir(Reg16::HL)),
            (0, 0, _, _, _, 1, 1, 0) => Instruction::Load8(dest_operand(opcode / 8), Src8::Imm(b1)),
            (0, 1, _, _, _, _, _, _) => Instruction::Load8(dest_operand(opcode / 8), src_operand(opcode)),
            (1, 1, 1, 1, 1, 0, 0, 1) => Instruction::Load16(Reg16::SP, Src16::Reg(Reg16::HL)),
            (0, 0, _, _, 0, 0, 0, 1) => Instruction::Load16(pair_operand(opcode / 16, Reg16::SP), Src16::Imm(u16_val(b1, b2))),
            (1, 1, 1, 1, 1, 0, 0, 0) => Instruction::Load16(Reg16::HL, Src16::SPOffset(signed(b1))),
            (1, 1, _, _, 0, 1, 0, 1) => Instruction::Push(pair_operand(opcode / 16, Reg16::AF)),
            (1, 1, _, _, 0, 0, 0, 1) => Instruction::Pop(pair_operand(opcode / 16, Reg16::AF)),
            (1, 1, 0, 0, 0, 1, 1, 0) => Instruction::Add(Src8::Imm(b1)),
            (1, 0, 0, 0, 0, _, _, _) => Instruction::Add(src_operand(opcode)),
            (1, 1, 0, 0, 1, 1, 1, 0) => Instruction::AddCarry(Src8::Imm(b1)),
            (1, 0, 0, 0, 1, _, _, _) => Instruction::AddCarry(src_operand(opcode)),
            (1, 1, 0, 1, 0, 1, 1, 0) => Instruction::Sub(Src8::Imm(b1)),
            (1, 0, 0, 1, 0, _, _, _) => Instruction::Sub(src_operand(opcode)),
            (1, 1, 0, 1, 1, 1, 1, 0) => Instruction::SubCarry(Src8::Imm(b1)),
            (1, 0, 0, 1, 1, _, _, _) => Instruction::SubCarry(src_operand(opcode)),
            (1, 1, 1, 0, 0, 1, 1, 0) => Instruction::And(Src8::Imm(b1)),
            (1, 0, 1, 0, 0, _, _, _) => Instruction::And(src_operand(opcode)),
            (1, 1, 1, 1, 0, 1, 1, 0) => Instruction::Or(Src8::Imm(b1)),
            (1, 0, 1, 1, 0, _, _, _) => Instruction::Or(src_operand(opcode)),
            (1, 1, 1, 0, 1, 1, 1, 0) => Instruction::Xor(Src8::Imm(b1)),
            (1, 0, 1, 0, 1, _, _, _) => Instruction::Xor(src_operand(opcode)),
            (1, 1, 1, 1, 1, 1, 1, 0) => Instruction::Compare(Src8::Imm(b1)),
            (1, 0, 1, 1, 1, _, _, _) => Instruction::Compare(src_operand(opcode)),
            (0, 0, _, _, _, 1, 0, 0) => Instruction::Increment(dest_operand(opcode / 8)),
            (0, 0, _, _, _, 1, 0, 1) => Instruction::Decrement(dest_operand(opcode / 8)),
            (0, 0, 1, 0, 0, 1, 1, 1) => Instruction::DecimalAdjust,
            (0, 0, 1, 0, 1, 1, 1, 1) => Instruction::Complement,
            (1, 1, 1, 0, 1, 0, 0, 0) => Instruction::Add16(Reg16::SP, Src16::SPOffset(signed(b1))),
            (0, 0, _, _, 1, 0, 0, 1) => Instruction::Add16(Reg16::HL, Src16::Reg(pair_operand(opcode / 16, Reg16::SP))),
            (0, 0, _, _, 0, 0, 1, 1) => Instruction::Increment16(pair_operand(opcode / 16, Reg16::SP)),
            (0, 0, _, _, 1, 0, 1, 1) => Instruction::Decrement16(pair_operand(opcode / 16, Reg16::SP)),
            (0, 0, 0, 0, 0, 1, 1, 1) => Instruction::RotateLeftA,
            (0, 0, 0, 1, 0, 1, 1, 1) => Instruction::RotateLeftACarry,
            (0, 0, 0, 0, 1, 1, 1, 1) => Instruction::RotateRightA,
            (0, 0, 0, 1, 1, 1, 1, 1) => Instruction::RotateRightACarry,
            (1, 1, 0, 0, 1, 0, 1, 1) => Self::classify_extended(opcode, b1),
            (1, 1, 0, 0, 0, 0, 1, 1) => Instruction::Jump(Src16::Imm(u16_val(b1, b2))),
            (1, 1, 1, 0, 1, 0, 0, 1) => Instruction::Jump(Src16::Reg(Reg16::HL)),
            (1, 1, 0, _, _, 0, 1, 0) => Instruction::JumpConditional(condition(opcode / 8), Src16::Imm(u16_val(b1, b2))),
            (0, 0, 0, 1, 1, 0, 0, 0) => Instruction::RelativeJump(signed(b1)),
            (0, 0, 1, _, _, 0, 0, 0) => Instruction::RelativeJumpConditional(condition(opcode / 8), signed(b1)),
            (1, 1, 0, 0, 1, 1, 0, 1) => Instruction::Call(u16_val(b1, b2)),
            (1, 1, 0, _, _, 1, 0, 0) => Instruction::CallConditional(condition(opcode / 8), u16_val(b1, b2)),
            (1, 1, 0, 0, 1, 0, 0, 1) => Instruction::Return,
            (1, 1, 0, _, _, 0, 0, 0) => Instruction::ReturnConditional(condition(opcode / 8)),
            _ => Instruction::Unknown(opcode, 0),
        }
    }

    /// Classifies a byte behind the escape opcode.
    pub fn classify_extended(opcode: u8, bitcode: u8) -> (r: Instruction)
        ensures
            r == Self::spec_classify_extended(opcode, bitcode),
    {
        match bits(bitcode) {
            (0, 0, 0, 0, 0, _, _, _) => Instruction::RotateLeft(dest_operand(bitcode)),
            (0, 0, 0, 1, 0, _, _, _) => Instruction::RotateLeftCarry(dest_operand(bitcode)),
            (0, 0, 0, 0, 1, _, _, _) => Instruction::RotateRight(dest_operand(bitcode)),
            (0, 0, 0, 1, 1, _, _, _) => Instruction::RotateRightCarry(dest_operand(bitcode)),
            (0, 0, 1, 0, 0, _, _, _) => Instruction::ShiftLeft(dest_operand(bitcode)),
            (0, 0, 1, 0, 1, _, _, _) => Instruction::ShiftRightArithmetic(dest_operand(bitcode)),
            (0, 0, 1, 1, 1, _, _, _) => Instruction::ShiftRightLogical(dest_operand(bitcode)),
            (0, 0, 1, 1, 0, _, _, _) => Instruction::Swap(dest_operand(bitcode)),
            (0, 1, _, _, _, _, _, _) => Instruction::TestBit((bitcode / 8) % 8, dest_operand(bitcode)),
            (1, 1, _, _, _, _, _, _) => Instruction::SetBit((bitcode / 8) % 8, dest_operand(bitcode)),
            (1, 0, _, _, _, _, _, _) => Instruction::ResetBit((bitcode / 8) % 8, dest_operand(bitcode)),
            _ => Instruction::Unknown(opcode, bitcode),
        }
    }

    /// Decodes the instruction at `*cursor`, reading its bytes from `bus`,
    /// and moves the cursor behind it. Where a byte of the instruction
    /// cannot be read, the cursor stays.
    pub fn decode(bus: &MMU, cursor: &mut u16) -> (r: Result<Instruction, Fault>)
        requires
            bus.wf(),
        ensures
            match Self::fetch(bus@, *old(cursor)) {
                Ok((instruction, next)) => {
                    &&& r == Ok::<Instruction, Fault>(instruction)
                    &&& *final(cursor) == next
                },
                Err(fault) => {
                    &&& r == Err::<Instruction, Fault>(fault)
                    &&& *final(cursor) == *old(cursor)
                },
            },
    {
        let pc: u16 = *cursor;
        let opcode: u8 = match bus.read8(pc) {
            Ok(byte) => byte,
            Err(fault) => {
                return Err(fault);
            },
        };
        let length: u16 = Self::length(opcode);
        let mut b1: u8 = 0;
        let mut b2: u8 = 0;
        if length >= 2 {
            match bus.read8(pc + 1) {
                Ok(byte) => {
                    b1 = byte;
                },
                Err(fault) => {
                    return Err(fault);
                },
            }
        }
        if length >= 3 {
            match bus.read8(pc + 2) {
                Ok(byte) => {
                    b2 = byte;
                },
                Err(fault) => {
                    return Err(fault);
                },
            }
        }
        *cursor = pc + length;
        Ok(Self::classify(opcode, b1, b2))
    }
}

/// An unknown instruction carries the opcode that was not matched; its
/// second byte is zero, or the byte behind the stop opcode.
pub proof fn lemma_unknown_carries_opcode(opcode: u8, b1: u8, b2: u8)
    ensures
        Instruction::spec_classify(opcode, b1, b2) matches Instruction::Unknown(first, second)
            ==> first == opcode && (second == 0 || (opcode == 0x10 && second == b1)),
{
}

/// Behind the escape opcode every byte stands for an instruction: the low
/// three bits select its operand, and the three bit operations take the
/// index of the bit, 0 to 7, from bits 3 to 5.
pub proof fn lemma_escape_table_is_total(bitcode: u8, b2: u8)
    ensures
        Instruction::spec_length(0xCB) == 2,
        Instruction::spec_classify(0xCB, bitcode, b2) == Instruction::spec_classify_extended(
            0xCB,
            bitcode,
        ),
        !(Instruction::spec_classify(0xCB, bitcode, b2) is Unknown),
        match Instruction::spec_classify_extended(0xCB, bitcode) {
            Instruction::RotateLeft(dest)
            | Instruction::RotateLeftCarry(dest)
            | Instruction::RotateRight(dest)
            | Instruction::RotateRightCarry(dest)
            | Instruction::ShiftLeft(dest)
            | Instruction::ShiftRightLogical(dest)
            | Instruction::ShiftRightArithmetic(dest)
            | Instruction::Swap(dest) => bitcode < 0x40 && dest == spec_dest_operand(bitcode),
            Instruction::TestBit(bit, dest) => 0x40 <= bitcode < 0x80 && bit == (bitcode / 8) % 8
                && dest == spec_dest_operand(bitcode),
            Instruction::ResetBit(bit, dest) => 0x80 <= bitcode < 0xC0 && bit == (bitcode / 8) % 8
                && dest == spec_dest_operand(bitcode),
            Instruction::SetBit(bit, dest) => 0xC0 <= bitcode && bit == (bitcode / 8) % 8 && dest
                == spec_dest_operand(bitcode),
            _ => false,
        },
{
    let bits = spec_bits(bitcode);
    assert(bits.0 == 0 && bits.1 == 0 <==> bitcode < 0x40);
    assert(bits.0 == 0 && bits.1 == 1 <==> 0x40 <= bitcode < 0x80);
    assert(bits.0 == 1 && bits.1 == 0 <==> 0x80 <= bitcode < 0xC0);
    assert(spec_bits(0xCB) == (1u8, 1u8, 0u8, 0u8, 1u8, 0u8, 1u8, 1u8));
}

/// Decoding consumes the opcode and its operand bytes, one to three bytes
/// in all, whatever the instruction later does; every byte consumed was
/// readable.
pub proof fn lemma_fetch_advances(mem: MemoryView, pc: u16)
    requires
        Instruction::fetch(mem, pc) is Ok,
    ensures
        ({
            let next = Instruction::fetch(mem, pc)->Ok_0.1;
            &&& next == pc + Instruction::spec_length(mem.byte_at(pc))
            &&& pc + 1 <= next <= pc + 3
            &&& forall|addr: u16| pc <= addr < next ==> mem.readable(addr)
        }),
{
}

/// The instruction depends on no more bytes than its length counts: the
/// bytes behind it play no part in what it is.
pub proof fn lemma_operand_bytes(opcode: u8, b1: u8, b2: u8, c1: u8, c2: u8)
    ensures
        Instruction::spec_length(opcode) == 1 ==> Instruction::spec_classify(opcode, b1, b2)
            == Instruction::spec_classify(opcode, c1, c2),
        Instruction::spec_length(opcode) == 2 ==> Instruction::spec_classify(opcode, b1, b2)
            == Instruction::spec_classify(opcode, b1, c2),
{
}

/// The two middle quarters of the opcode space, read by their fields: an
/// opcode from 0x40 to 0x7F is the load between the operands that bits 3 to
/// 5 and bits 0 to 2 select, but for the one opcode that would load a memory
/// cell from itself, which halts; an opcode from 0x80 to 0xBF is the
/// operation on the accumulator that bits 3 to 5 select, with the operand
/// that bits 0 to 2 select.
pub proof fn lemma_register_quarters(opcode: u8, b1: u8, b2: u8)
    ensures
        0x40 <= opcode < 0x80 && opcode != 0x76 ==> Instruction::spec_classify(opcode, b1, b2)
            == Instruction::Load8(
            spec_dest_operand((opcode / 8) as u8),
            spec_src_operand(opcode),
        ),
        Instruction::spec_classify(0x76, b1, b2) == Instruction::Halt,
        0x80 <= opcode < 0xC0 ==> Instruction::spec_classify(opcode, b1, b2) == ({
            let src = spec_src_operand(opcode);
            let op = (opcode - 0x80) / 8;
            if op == 0 {
                Instruction::Add(src)
            } else if op == 1 {
                Instruction::AddCarry(src)
            } else if op == 2 {
                Instruction::Sub(src)
            } else if op == 3 {
                Instruction::SubCarry(src)
            } else if op == 4 {
                Instruction::And(src)
            } else if op == 5 {
                Instruction::Xor(src)
            } else if op == 6 {
                Instruction::Or(src)
            } else {
                Instruction::Compare(src)
            }
        }),
        0x40 <= opcode < 0xC0 ==> Instruction::spec_length(opcode) == 1,
{
    let bits = spec_bits(opcode);
    assert(bits.0 == 0 && bits.1 == 1 <==> 0x40 <= opcode < 0x80);
    assert(bits.0 == 1 && bits.1 == 0 <==> 0x80 <= opcode < 0xC0);
    assert(spec_bits(0x76) == (0u8, 1u8, 1u8, 1u8, 0u8, 1u8, 1u8, 0u8));
}

} // verus!
