use libgameboy::cpu::Cpu;
use libgameboy::fault::{Access, Fault};
use libgameboy::mmu::MMU;
use libgameboy::z80::instructions::{Dest8, FlagState, Instruction, Src16, Src8};
use libgameboy::z80::registers::{Flag, Reg16, Reg8, Registers};
use libgameboy::{Cartridge, Gameboy};

fn cpu_test_mmu(program: &[u8]) -> MMU {
    let mut image = vec![0u8; 0x4000];
    image[0x0105] = 0x18;
    image[0x0106] = 0xFE;
    let mut mmu = MMU::new(Cartridge::from_buffer(image).unwrap(), [0u8; 256]);
    for (i, byte) in program.iter().enumerate() {
        mmu.write8(0xC000 + i as u16, *byte).unwrap();
    }
    mmu
}

fn flags_of(cpu: &Cpu) -> (bool, bool, bool, bool) {
    let regs = cpu.registers();
    (regs.get_flag(Flag::Z), regs.get_flag(Flag::S), regs.get_flag(Flag::H), regs.get_flag(Flag::C))
}

fn cpu_with(setup: &[(Reg8, u8)], pairs: &[(Reg16, u16)], flags: (bool, bool, bool, bool)) -> Cpu {
    let mut regs = Registers::new();
    for (pair, val) in pairs {
        regs.write16(*pair, *val);
    }
    for (reg, val) in setup {
        regs.write8(*reg, *val);
    }
    regs.set_flags(flags.0, flags.1, flags.2, flags.3);
    Cpu::from_registers(regs)
}

const NO_FLAGS: (bool, bool, bool, bool) = (false, false, false, false);

#[test]
fn new_cpu_is_in_the_power_on_state() {
    let cpu = Cpu::new();
    let regs = cpu.registers();
    assert_eq!(regs.read16(Reg16::PC), 0xC000);
    assert_eq!(regs.read16(Reg16::SP), 0);
    assert_eq!(regs.read16(Reg16::AF), 0);
    assert_eq!(regs.read16(Reg16::BC), 0);
    assert_eq!(regs.read16(Reg16::DE), 0);
    assert_eq!(regs.read16(Reg16::HL), 0);
}

#[test]
fn add_sets_half_carry() {
    let mut mmu = cpu_test_mmu(&[0xC6, 0x01]);
    let mut cpu = cpu_with(&[(Reg8::A, 0x0F)], &[], (true, true, false, true));
    assert_eq!(cpu.tick(&mut mmu), Ok(()));
    assert_eq!(cpu.registers().read8(Reg8::A), 0x10);
    assert_eq!(flags_of(&cpu), (false, false, true, false));
    assert_eq!(cpu.registers().read16(Reg16::PC), 0xC002);
}

#[test]
fn add_wraps_to_zero_with_carry() {
    let mut mmu = cpu_test_mmu(&[0x80]);
    let mut cpu = cpu_with(&[(Reg8::A, 0xFF), (Reg8::B, 0x01)], &[], NO_FLAGS);
    assert_eq!(cpu.tick(&mut mmu), Ok(()));
    assert_eq!(cpu.registers().read8(Reg8::A), 0x00);
    assert_eq!(flags_of(&cpu), (true, false, true, true));
    assert_eq!(cpu.registers().read8(Reg8::B), 0x01);
}

#[test]
fn subtract_wraps_below_zero_with_borrow() {
    let mut mmu = cpu_test_mmu(&[0xD6, 0x01]);
    let mut cpu = cpu_with(&[(Reg8::A, 0x00)], &[], NO_FLAGS);
    assert_eq!(cpu.tick(&mut mmu), Ok(()));
    assert_eq!(cpu.registers().read8(Reg8::A), 0xFF);
    assert_eq!(flags_of(&cpu), (false, true, true, true));
}

#[test]
fn add_with_carry_and_subtract_with_carry_use_the_carry_flag() {
    let mut mmu = cpu_test_mmu(&[0xCE, 0x01, 0xDE, 0x01]);
    let mut cpu = cpu_with(&[(Reg8::A, 0x10)], &[], (false, false, false, true));
    assert_eq!(cpu.tick(&mut mmu), Ok(()));
    assert_eq!(cpu.registers().read8(Reg8::A), 0x12);
    assert_eq!(flags_of(&cpu), (false, false, false, false));
    let mut regs = cpu.registers();
    regs.set_flag(Flag::C, true);
    let mut cpu = Cpu::from_registers(regs);
    assert_eq!(cpu.tick(&mut mmu), Ok(()));
    assert_eq!(cpu.registers().read8(Reg8::A), 0x10);
    assert_eq!(flags_of(&cpu), (false, true, false, false));
}

#[test]
fn compare_leaves_the_accumulator() {
    let mut mmu = cpu_test_mmu(&[0xFE, 0x42, 0xFE, 0x43]);
    let mut cpu = cpu_with(&[(Reg8::A, 0x42)], &[], NO_FLAGS);
    assert_eq!(cpu.tick(&mut mmu), Ok(()));
    assert_eq!(cpu.registers().read8(Reg8::A), 0x42);
    assert_eq!(flags_of(&cpu), (true, true, false, false));
    assert_eq!(cpu.tick(&mut mmu), Ok(()));
    assert_eq!(cpu.registers().read8(Reg8::A), 0x42);
    assert_eq!(flags_of(&cpu), (false, true, true, true));
}

#[test]
fn decimal_adjust_corrects_a_nibble_above_nine() {
    let mut mmu = cpu_test_mmu(&[0x27]);
    let mut cpu = cpu_with(&[(Reg8::A, 0x0A)], &[], NO_FLAGS);
    assert_eq!(cpu.tick(&mut mmu), Ok(()));
    assert_eq!(cpu.registers().read8(Reg8::A), 0x10);
    assert_eq!(flags_of(&cpu), (false, false, false, false));
}

#[test]
fn decimal_adjust_after_a_decimal_addition() {
    let mut mmu = cpu_test_mmu(&[0xC6, 0x27, 0x27]);
    let mut cpu = cpu_with(&[(Reg8::A, 0x15)], &[], NO_FLAGS);
    cpu.tick(&mut mmu).unwrap();
    assert_eq!(cpu.registers().read8(Reg8::A), 0x3C);
    cpu.tick(&mut mmu).unwrap();
    assert_eq!(cpu.registers().read8(Reg8::A), 0x42);
    assert_eq!(flags_of(&cpu), (false, false, false, false));
}

#[test]
fn push_then_pop_restores_pair_and_stack_pointer() {
    let mut mmu = cpu_test_mmu(&[0xC5, 0xC1]);
    mmu.write8(0xCFFD, 0x77).unwrap();
    mmu.write8(0xD000, 0x88).unwrap();
    let mut cpu = cpu_with(&[], &[(Reg16::BC, 0x1234), (Reg16::SP, 0xD000)], NO_FLAGS);
    assert_eq!(cpu.tick(&mut mmu), Ok(()));
    assert_eq!(cpu.registers().read16(Reg16::SP), 0xCFFE);
    assert_eq!(mmu.read8(0xCFFE), Ok(0x34));
    assert_eq!(mmu.read8(0xCFFF), Ok(0x12));
    assert_eq!(mmu.read8(0xCFFD), Ok(0x77));
    assert_eq!(mmu.read8(0xD000), Ok(0x88));
    let mut regs = cpu.registers();
    regs.write16(Reg16::BC, 0);
    let mut cpu = Cpu::from_registers(regs);
    assert_eq!(cpu.tick(&mut mmu), Ok(()));
    assert_eq!(cpu.registers().read16(Reg16::BC), 0x1234);
    assert_eq!(cpu.registers().read16(Reg16::SP), 0xD000);
    assert_eq!(mmu.read8(0xCFFE), Ok(0x34));
    assert_eq!(mmu.read8(0xCFFF), Ok(0x12));
    assert_eq!(mmu.read8(0xCFFD), Ok(0x77));
    assert_eq!(mmu.read8(0xD000), Ok(0x88));
}

#[test]
fn push_and_pop_of_the_flag_pair() {
    let mut mmu = cpu_test_mmu(&[0xF5, 0xC1]);
    let mut cpu = cpu_with(&[(Reg8::A, 0xAB)], &[(Reg16::SP, 0xC100)], (true, false, true, false));
    cpu.tick(&mut mmu).unwrap();
    cpu.tick(&mut mmu).unwrap();
    assert_eq!(cpu.registers().read16(Reg16::BC), 0xABA0);
    assert_eq!(cpu.registers().read16(Reg16::SP), 0xC100);
}

#[test]
fn relative_jump_counts_from_behind_the_instruction() {
    let mut mmu = cpu_test_mmu(&[]);
    let mut cpu = cpu_with(&[], &[(Reg16::PC, 0x0105)], NO_FLAGS);
    assert_eq!(cpu.tick(&mut mmu), Ok(()));
    assert_eq!(cpu.registers().read16(Reg16::PC), 0x0105);
    assert_eq!(cpu.tick(&mut mmu), Ok(()));
    assert_eq!(cpu.registers().read16(Reg16::PC), 0x0105);
}

#[test]
fn relative_jump_forward() {
    let mut mmu = cpu_test_mmu(&[0x18, 0x05]);
    let mut cpu = Cpu::new();
    assert_eq!(cpu.tick(&mut mmu), Ok(()));
    assert_eq!(cpu.registers().read16(Reg16::PC), 0xC007);
}

#[test]
fn bit_test_of_a_set_bit() {
    let mut mmu = cpu_test_mmu(&[0xCB, 0x7C]);
    for carry in [false, true] {
        let mut cpu = cpu_with(&[(Reg8::H, 0x80)], &[], (true, true, false, carry));
        assert_eq!(cpu.tick(&mut mmu), Ok(()));
        assert_eq!(flags_of(&cpu), (false, false, true, carry));
        assert_eq!(cpu.registers().read8(Reg8::H), 0x80);
        assert_eq!(cpu.registers().read16(Reg16::PC), 0xC002);
    }
}

#[test]
fn bit_test_of_a_clear_bit() {
    let mut mmu = cpu_test_mmu(&[0xCB, 0x7C]);
    let mut cpu = cpu_with(&[(Reg8::H, 0x7F)], &[], NO_FLAGS);
    assert_eq!(cpu.tick(&mut mmu), Ok(()));
    assert_eq!(flags_of(&cpu), (true, false, true, false));
    assert_eq!(cpu.registers().read8(Reg8::H), 0x7F);
}

#[test]
fn set_and_reset_bit_touch_no_flag() {
    let mut mmu = cpu_test_mmu(&[0xCB, 0xD8, 0xCB, 0x86]);
    mmu.write8(0xC800, 0xFF).unwrap();
    let mut cpu = cpu_with(&[(Reg8::B, 0x00)], &[(Reg16::HL, 0xC800)], (true, false, true, true));
    cpu.tick(&mut mmu).unwrap();
    assert_eq!(cpu.registers().read8(Reg8::B), 0x08);
    assert_eq!(flags_of(&cpu), (true, false, true, true));
    cpu.tick(&mut mmu).unwrap();
    assert_eq!(mmu.read8(0xC800), Ok(0xFE));
    assert_eq!(flags_of(&cpu), (true, false, true, true));
}

#[test]
fn unknown_opcode_stops_the_machine() {
    let mut mmu = cpu_test_mmu(&[0xD3]);
    let mut cpu = Cpu::new();
    assert_eq!(
        cpu.tick(&mut mmu),
        Err(Fault::UnknownInstruction { opcode: 0xD3, bitcode: 0, pc: 0xC000 })
    );
    assert_eq!(cpu.registers().read16(Reg16::PC), 0xC000);
    let mut cpu = Cpu::new();
    assert_eq!(
        cpu.handle_instruction(&mut mmu, Instruction::Unknown(0x10, 0x07), 0x1234),
        Err(Fault::UnknownInstruction { opcode: 0x10, bitcode: 0x07, pc: 0x1234 })
    );
}

#[test]
fn fetch_from_an_unmapped_address_faults() {
    let mut mmu = cpu_test_mmu(&[]);
    let mut cpu = cpu_with(&[], &[(Reg16::PC, 0xE000)], NO_FLAGS);
    assert_eq!(cpu.tick(&mut mmu), Err(Fault::Address { addr: 0xE000, access: Access::Read }));
    assert_eq!(cpu.registers().read16(Reg16::PC), 0xE000);
}

#[test]
fn a_fault_leaves_registers_and_memory_as_they_were() {
    let mut mmu = cpu_test_mmu(&[0x22, 0xC5, 0x34, 0xCD, 0x00, 0xC1]);
    let mut cpu = cpu_with(&[(Reg8::A, 0x55)], &[(Reg16::HL, 0x0000), (Reg16::SP, 0x8001)], NO_FLAGS);
    assert_eq!(cpu.tick(&mut mmu), Err(Fault::Address { addr: 0x0000, access: Access::Write }));
    assert_eq!(cpu.registers().read16(Reg16::PC), 0xC000);
    assert_eq!(cpu.registers().read16(Reg16::HL), 0x0000);
    let mut regs = cpu.registers();
    regs.write16(Reg16::PC, 0xC001);
    let mut cpu = Cpu::from_registers(regs);
    assert_eq!(cpu.tick(&mut mmu), Err(Fault::Address { addr: 0x7FFF, access: Access::Write }));
    assert_eq!(cpu.registers().read16(Reg16::SP), 0x8001);
    assert_eq!(cpu.registers().read16(Reg16::PC), 0xC001);
    let mut regs = cpu.registers();
    regs.write16(Reg16::PC, 0xC002);
    regs.write16(Reg16::HL, 0xA000);
    let mut cpu = Cpu::from_registers(regs);
    assert_eq!(cpu.tick(&mut mmu), Err(Fault::Address { addr: 0xA000, access: Access::Read }));
    assert_eq!(cpu.registers().read16(Reg16::PC), 0xC002);
    let mut regs = cpu.registers();
    regs.write16(Reg16::PC, 0xC003);
    regs.write16(Reg16::SP, 0x8001);
    let mut cpu = Cpu::from_registers(regs);
    assert_eq!(cpu.tick(&mut mmu), Err(Fault::Address { addr: 0x7FFF, access: Access::Write }));
    assert_eq!(cpu.registers().read16(Reg16::PC), 0xC003);
    assert_eq!(cpu.registers().read16(Reg16::SP), 0x8001);
    assert_eq!(mmu.read8(0x8000), Ok(0));
}

#[test]
fn stack_word_across_the_end_of_a_region_is_not_half_written() {
    let mut mmu = cpu_test_mmu(&[0xC5]);
    let mut cpu = cpu_with(&[], &[(Reg16::BC, 0xBEEF), (Reg16::SP, 0xA001)], NO_FLAGS);
    assert_eq!(cpu.tick(&mut mmu), Err(Fault::Address { addr: 0xA000, access: Access::Write }));
    assert_eq!(mmu.read8(0x9FFF), Ok(0));
    assert_eq!(cpu.registers().read16(Reg16::SP), 0xA001);
}

#[test]
fn loads_copy_source_to_destination() {
    let mut mmu = cpu_test_mmu(&[0x06, 0x42, 0x48, 0x21, 0x00, 0xC8, 0x71, 0x7E, 0xEA, 0x10, 0xC8, 0xFA, 0x00, 0xC8]);
    let mut cpu = Cpu::new();
    cpu.tick(&mut mmu).unwrap();
    assert_eq!(cpu.registers().read8(Reg8::B), 0x42);
    cpu.tick(&mut mmu).unwrap();
    assert_eq!(cpu.registers().read8(Reg8::C), 0x42);
    cpu.tick(&mut mmu).unwrap();
    assert_eq!(cpu.registers().read16(Reg16::HL), 0xC800);
    cpu.tick(&mut mmu).unwrap();
    assert_eq!(mmu.read8(0xC800), Ok(0x42));
    cpu.tick(&mut mmu).unwrap();
    assert_eq!(cpu.registers().read8(Reg8::A), 0x42);
    cpu.tick(&mut mmu).unwrap();
    assert_eq!(mmu.read8(0xC810), Ok(0x42));
    cpu.tick(&mut mmu).unwrap();
    assert_eq!(cpu.registers().read8(Reg8::A), 0x42);
    assert_eq!(cpu.registers().read16(Reg16::PC), 0xC00E);
    assert_eq!(cpu.registers().read16(Reg16::AF) & 0xFF, 0);
}

#[test]
fn load_with_increment_and_decrement_move_hl() {
    let mut mmu = cpu_test_mmu(&[0x22, 0x32, 0x2A, 0x3A]);
    let mut cpu = cpu_with(&[(Reg8::A, 0x99)], &[(Reg16::HL, 0xC800)], NO_FLAGS);
    cpu.tick(&mut mmu).unwrap();
    assert_eq!(mmu.read8(0xC800), Ok(0x99));
    assert_eq!(cpu.registers().read16(Reg16::HL), 0xC801);
    cpu.tick(&mut mmu).unwrap();
    assert_eq!(mmu.read8(0xC801), Ok(0x99));
    assert_eq!(cpu.registers().read16(Reg16::HL), 0xC800);
    mmu.write8(0xC800, 0x11).unwrap();
    mmu.write8(0xC801, 0x22).unwrap();
    cpu.tick(&mut mmu).unwrap();
    assert_eq!(cpu.registers().read8(Reg8::A), 0x11);
    assert_eq!(cpu.registers().read16(Reg16::HL), 0xC801);
    cpu.tick(&mut mmu).unwrap();
    assert_eq!(cpu.registers().read8(Reg8::A), 0x22);
    assert_eq!(cpu.registers().read16(Reg16::HL), 0xC800);
}

#[test]
fn hl_wraps_when_it_moves_past_either_end() {
    let mut mmu = cpu_test_mmu(&[]);
    let mut cpu = cpu_with(&[(Reg8::B, 0x01)], &[(Reg16::HL, 0xFFFF)], NO_FLAGS);
    let load = Instruction::Load8Inc(Dest8::Reg(Reg8::A), Src8::Reg(Reg8::B));
    assert_eq!(cpu.handle_instruction(&mut mmu, load, 0), Ok(()));
    assert_eq!(cpu.registers().read16(Reg16::HL), 0x0000);
    let load = Instruction::Load8Dec(Dest8::Reg(Reg8::A), Src8::Reg(Reg8::B));
    assert_eq!(cpu.handle_instruction(&mut mmu, load, 0), Ok(()));
    assert_eq!(cpu.registers().read16(Reg16::HL), 0xFFFF);
}

#[test]
fn stack_pointer_plus_displacement() {
    let mut mmu = cpu_test_mmu(&[0xF8, 0x01, 0xF8, 0xFF, 0xE8, 0xFE]);
    let mut cpu = cpu_with(&[], &[(Reg16::SP, 0x00FF)], (true, true, false, false));
    cpu.tick(&mut mmu).unwrap();
    assert_eq!(cpu.registers().read16(Reg16::HL), 0x0100);
    assert_eq!(cpu.registers().read16(Reg16::SP), 0x00FF);
    assert_eq!(flags_of(&cpu), (false, false, true, true));
    let mut regs = cpu.registers();
    regs.write16(Reg16::SP, 0x0000);
    let mut cpu = Cpu::from_registers(regs);
    cpu.tick(&mut mmu).unwrap();
    assert_eq!(cpu.registers().read16(Reg16::HL), 0xFFFF);
    assert_eq!(flags_of(&cpu), (false, false, false, false));
    let mut regs = cpu.registers();
    regs.write16(Reg16::SP, 0xD000);
    let mut cpu = Cpu::from_registers(regs);
    cpu.tick(&mut mmu).unwrap();
    assert_eq!(cpu.registers().read16(Reg16::SP), 0xCFFE);
    assert_eq!(flags_of(&cpu), (false, false, false, false));
}

#[test]
fn wide_addition_keeps_the_zero_flag() {
    let mut mmu = cpu_test_mmu(&[0x09, 0x09]);
    let mut cpu =
        cpu_with(&[], &[(Reg16::HL, 0x0FFF), (Reg16::BC, 0x0001)], (true, true, false, true));
    cpu.tick(&mut mmu).unwrap();
    assert_eq!(cpu.registers().read16(Reg16::HL), 0x1000);
    assert_eq!(flags_of(&cpu), (true, false, true, false));
    let mut regs = cpu.registers();
    regs.write16(Reg16::HL, 0xFFFF);
    regs.set_flag(Flag::Z, false);
    let mut cpu = Cpu::from_registers(regs);
    cpu.tick(&mut mmu).unwrap();
    assert_eq!(cpu.registers().read16(Reg16::HL), 0x0000);
    assert_eq!(flags_of(&cpu), (false, false, true, true));
}

#[test]
fn wide_increment_and_decrement_wrap_and_touch_no_flag() {
    let mut mmu = cpu_test_mmu(&[0x03, 0x1B]);
    let mut cpu =
        cpu_with(&[], &[(Reg16::BC, 0xFFFF), (Reg16::DE, 0x0000)], (true, false, true, false));
    cpu.tick(&mut mmu).unwrap();
    assert_eq!(cpu.registers().read16(Reg16::BC), 0x0000);
    cpu.tick(&mut mmu).unwrap();
    assert_eq!(cpu.registers().read16(Reg16::DE), 0xFFFF);
    assert_eq!(flags_of(&cpu), (true, false, true, false));
}

#[test]
fn increment_and_decrement_do_not_touch_carry() {
    let mut mmu = cpu_test_mmu(&[0x04, 0x05, 0x34, 0x35]);
    mmu.write8(0xC800, 0x0F).unwrap();
    for carry in [false, true] {
        let mut cpu =
            cpu_with(&[(Reg8::B, 0xFF)], &[(Reg16::HL, 0xC800)], (false, true, false, carry));
        cpu.tick(&mut mmu).unwrap();
        assert_eq!(cpu.registers().read8(Reg8::B), 0x00);
        assert_eq!(flags_of(&cpu), (true, false, true, carry));
        cpu.tick(&mut mmu).unwrap();
        assert_eq!(cpu.registers().read8(Reg8::B), 0xFF);
        assert_eq!(flags_of(&cpu), (false, true, true, carry));
        cpu.tick(&mut mmu).unwrap();
        assert_eq!(mmu.read8(0xC800), Ok(0x10));
        assert_eq!(flags_of(&cpu), (false, false, true, carry));
        cpu.tick(&mut mmu).unwrap();
        assert_eq!(mmu.read8(0xC800), Ok(0x0F));
        assert_eq!(flags_of(&cpu), (false, true, true, carry));
    }
}

#[test]
fn accumulator_rotations_always_clear_zero() {
    let mut mmu = cpu_test_mmu(&[0x07, 0x17, 0x0F, 0x1F]);
    let mut cpu = cpu_with(&[(Reg8::A, 0x00)], &[], (true, true, true, false));
    cpu.tick(&mut mmu).unwrap();
    assert_eq!(cpu.registers().read8(Reg8::A), 0x00);
    assert_eq!(flags_of(&cpu), (false, false, false, false));
    let mut cpu = cpu_with(&[(Reg8::A, 0x80)], &[(Reg16::PC, 0xC001)], (true, true, true, false));
    cpu.tick(&mut mmu).unwrap();
    assert_eq!(cpu.registers().read8(Reg8::A), 0x00);
    assert_eq!(flags_of(&cpu), (false, false, false, true));
    let mut cpu = cpu_with(&[(Reg8::A, 0x01)], &[(Reg16::PC, 0xC002)], NO_FLAGS);
    cpu.tick(&mut mmu).unwrap();
    assert_eq!(cpu.registers().read8(Reg8::A), 0x80);
    assert_eq!(flags_of(&cpu), (false, false, false, true));
    let mut cpu = cpu_with(&[(Reg8::A, 0x02)], &[(Reg16::PC, 0xC003)], (false, false, false, true));
    cpu.tick(&mut mmu).unwrap();
    assert_eq!(cpu.registers().read8(Reg8::A), 0x81);
    assert_eq!(flags_of(&cpu), (false, false, false, false));
}

#[test]
fn general_rotations_recompute_zero() {
    let mut mmu = cpu_test_mmu(&[0xCB, 0x00, 0xCB, 0x16, 0xCB, 0x37]);
    mmu.write8(0xC800, 0x80).unwrap();
    let mut cpu =
        cpu_with(&[(Reg8::B, 0x00), (Reg8::A, 0xF1)], &[(Reg16::HL, 0xC800)], (false, true, true, false));
    cpu.tick(&mut mmu).unwrap();
    assert_eq!(cpu.registers().read8(Reg8::B), 0x00);
    assert_eq!(flags_of(&cpu), (true, false, false, false));
    cpu.tick(&mut mmu).unwrap();
    assert_eq!(mmu.read8(0xC800), Ok(0x00));
    assert_eq!(flags_of(&cpu), (true, false, false, true));
    cpu.tick(&mut mmu).unwrap();
    assert_eq!(cpu.registers().read8(Reg8::A), 0x1F);
    assert_eq!(flags_of(&cpu), (false, false, false, false));
}

#[test]
fn carry_flag_instructions() {
    let mut mmu = cpu_test_mmu(&[0x37, 0x3F, 0x3F, 0x2F]);
    let mut cpu = cpu_with(&[(Reg8::A, 0x0F)], &[], (true, true, true, false));
    cpu.tick(&mut mmu).unwrap();
    assert_eq!(flags_of(&cpu), (true, false, false, true));
    cpu.tick(&mut mmu).unwrap();
    assert_eq!(flags_of(&cpu), (true, false, false, false));
    cpu.tick(&mut mmu).unwrap();
    assert_eq!(flags_of(&cpu), (true, false, false, true));
    cpu.tick(&mut mmu).unwrap();
    assert_eq!(cpu.registers().read8(Reg8::A), 0xF0);
    assert_eq!(flags_of(&cpu), (true, true, true, true));
}

#[test]
fn absolute_jumps() {
    let mut mmu = cpu_test_mmu(&[0xC3, 0x00, 0xD0]);
    let mut cpu = Cpu::new();
    cpu.tick(&mut mmu).unwrap();
    assert_eq!(cpu.registers().read16(Reg16::PC), 0xD000);
    let mut cpu = cpu_with(&[], &[(Reg16::HL, 0xC123)], NO_FLAGS);
    cpu.handle_instruction(&mut mmu, Instruction::Jump(Src16::Reg(Reg16::HL)), 0).unwrap();
    assert_eq!(cpu.registers().read16(Reg16::PC), 0xC123);
}

#[test]
fn conditional_jump_not_taken_still_skips_its_operand() {
    let mut mmu = cpu_test_mmu(&[0xC2, 0x00, 0xD0, 0x20, 0x10, 0xCA, 0x00, 0xD0]);
    let mut cpu = cpu_with(&[], &[], (true, false, false, false));
    cpu.tick(&mut mmu).unwrap();
    assert_eq!(cpu.registers().read16(Reg16::PC), 0xC003);
    cpu.tick(&mut mmu).unwrap();
    assert_eq!(cpu.registers().read16(Reg16::PC), 0xC005);
    cpu.tick(&mut mmu).unwrap();
    assert_eq!(cpu.registers().read16(Reg16::PC), 0xD000);
}

#[test]
fn conditional_relative_jump_taken() {
    let mut mmu = cpu_test_mmu(&[0x30, 0x10, 0x38, 0xFC]);
    let mut cpu = Cpu::new();
    cpu.tick(&mut mmu).unwrap();
    assert_eq!(cpu.registers().read16(Reg16::PC), 0xC012);
    let mut cpu = cpu_with(&[], &[(Reg16::PC, 0xC002)], (false, false, false, true));
    cpu.tick(&mut mmu).unwrap();
    assert_eq!(cpu.registers().read16(Reg16::PC), 0xC000);
}

#[test]
fn call_pushes_the_return_address_and_return_pops_it() {
    let mut mmu = cpu_test_mmu(&[0xCD, 0x10, 0xC0]);
    mmu.write8(0xC010, 0xC9).unwrap();
    let mut cpu = cpu_with(&[], &[(Reg16::SP, 0xD000)], NO_FLAGS);
    cpu.tick(&mut mmu).unwrap();
    assert_eq!(cpu.registers().read16(Reg16::PC), 0xC010);
    assert_eq!(cpu.registers().read16(Reg16::SP), 0xCFFE);
    assert_eq!(mmu.read16(0xCFFE), Ok(0xC003));
    cpu.tick(&mut mmu).unwrap();
    assert_eq!(cpu.registers().read16(Reg16::PC), 0xC003);
    assert_eq!(cpu.registers().read16(Reg16::SP), 0xD000);
}

#[test]
fn conditional_call_and_return() {
    let mut mmu = cpu_test_mmu(&[0xCC, 0x10, 0xC0, 0xC4, 0x10, 0xC0]);
    mmu.write8(0xC010, 0xC8).unwrap();
    mmu.write8(0xC011, 0xC0).unwrap();
    let mut cpu = cpu_with(&[], &[(Reg16::SP, 0xD000)], NO_FLAGS);
    cpu.tick(&mut mmu).unwrap();
    assert_eq!(cpu.registers().read16(Reg16::PC), 0xC003);
    assert_eq!(cpu.registers().read16(Reg16::SP), 0xD000);
    cpu.tick(&mut mmu).unwrap();
    assert_eq!(cpu.registers().read16(Reg16::PC), 0xC010);
    assert_eq!(cpu.registers().read16(Reg16::SP), 0xCFFE);
    cpu.tick(&mut mmu).unwrap();
    assert_eq!(cpu.registers().read16(Reg16::PC), 0xC011);
    assert_eq!(cpu.registers().read16(Reg16::SP), 0xCFFE);
    cpu.tick(&mut mmu).unwrap();
    assert_eq!(cpu.registers().read16(Reg16::PC), 0xC006);
    assert_eq!(cpu.registers().read16(Reg16::SP), 0xD000);
}

#[test]
fn condition_is_a_flag_and_a_state() {
    let mut mmu = cpu_test_mmu(&[]);
    let target = Src16::Imm(0x4321);
    for flag in [Flag::Z, Flag::S, Flag::H, Flag::C] {
        for state in [false, true] {
            for actual in [false, true] {
                let mut regs = Registers::new();
                regs.set_flag(flag, actual);
                let mut cpu = Cpu::from_registers(regs);
                let jump = Instruction::JumpConditional(FlagState { flag, state }, target);
                cpu.handle_instruction(&mut mmu, jump, 0).unwrap();
                let expected = if actual == state { 0x4321 } else { 0xC000 };
                assert_eq!(cpu.registers().read16(Reg16::PC), expected);
            }
        }
    }
}

#[test]
fn instructions_without_effect_here() {
    let mut mmu = cpu_test_mmu(&[0x00, 0x76, 0x10, 0x00, 0xF3, 0xFB]);
    let mut cpu = cpu_with(&[(Reg8::A, 0x12)], &[(Reg16::SP, 0xD000)], (true, false, true, false));
    for expected_pc in [0xC001u16, 0xC002, 0xC004, 0xC005, 0xC006] {
        cpu.tick(&mut mmu).unwrap();
        assert_eq!(cpu.registers().read16(Reg16::PC), expected_pc);
        assert_eq!(cpu.registers().read16(Reg16::AF), 0x12A0);
        assert_eq!(cpu.registers().read16(Reg16::SP), 0xD000);
    }
}

#[test]
fn high_page_operands_reach_no_region() {
    let mut mmu = cpu_test_mmu(&[0xE0, 0x44, 0xF2]);
    let mut cpu = cpu_with(&[(Reg8::C, 0x10)], &[], NO_FLAGS);
    assert_eq!(cpu.tick(&mut mmu), Err(Fault::Address { addr: 0xFF44, access: Access::Write }));
    let mut cpu = cpu_with(&[(Reg8::C, 0x10)], &[(Reg16::PC, 0xC002)], NO_FLAGS);
    assert_eq!(cpu.tick(&mut mmu), Err(Fault::Address { addr: 0xFF10, access: Access::Read }));
}

#[test]
fn gameboy_runs_a_program_from_working_ram() {
    let mut image = vec![0u8; 0x4000];
    image[0x0134..0x0138].copy_from_slice(b"TEST");
    let mut boot = [0u8; 256];
    boot[0] = 0x3E;
    let mut gameboy = Gameboy::new(Cartridge::from_buffer(image).unwrap(), boot);
    assert_eq!(gameboy.cpu().registers().read16(Reg16::PC), 0xC000);
    assert_eq!(gameboy.mmu().read8(0x0000), Ok(0x3E));
    for expected_pc in [0xC001u16, 0xC002, 0xC003] {
        assert_eq!(gameboy.tick(), Ok(()));
        assert_eq!(gameboy.cpu().registers().read16(Reg16::PC), expected_pc);
    }
}

#[test]
fn gameboy_stops_at_the_end_of_working_ram() {
    let image = vec![0u8; 0x4000];
    let mut gameboy = Gameboy::new(Cartridge::from_buffer(image).unwrap(), [0u8; 256]);
    let mut ticks = 0;
    let fault = loop {
        match gameboy.tick() {
            Ok(()) => ticks += 1,
            Err(fault) => break fault,
        }
    };
    assert_eq!(ticks, 0x2000);
    assert_eq!(fault, Fault::Address { addr: 0xE000, access: Access::Read });
    assert_eq!(gameboy.cpu().registers().read16(Reg16::PC), 0xE000);
}
