use libgameboy::z80::registers::{Flag, Reg16, Reg8, Registers};

const ALL_REG8: [Reg8; 7] = [Reg8::A, Reg8::B, Reg8::C, Reg8::D, Reg8::E, Reg8::H, Reg8::L];

#[test]
fn new_registers_start_at_working_ram() {
    let regs = Registers::new();
    assert_eq!(regs.read16(Reg16::PC), 0xC000);
    assert_eq!(regs.read16(Reg16::SP), 0);
    assert_eq!(regs.read16(Reg16::AF), 0);
    assert_eq!(regs.read16(Reg16::BC), 0);
    assert_eq!(regs.read16(Reg16::DE), 0);
    assert_eq!(regs.read16(Reg16::HL), 0);
    for reg in ALL_REG8 {
        assert_eq!(regs.read8(reg), 0);
    }
    assert!(!regs.get_flag(Flag::Z));
    assert!(!regs.get_flag(Flag::S));
    assert!(!regs.get_flag(Flag::H));
    assert!(!regs.get_flag(Flag::C));
}

#[test]
fn every_register_reads_back_every_byte() {
    for reg in ALL_REG8 {
        for x in 0..=255u8 {
            let mut regs = Registers::new();
            regs.write8(reg, x);
            assert_eq!(regs.read8(reg), x);
            for other in ALL_REG8 {
                if other != reg {
                    assert_eq!(regs.read8(other), 0);
                }
            }
        }
    }
}

#[test]
fn byte_shows_in_its_half_of_the_pair() {
    let mut regs = Registers::new();
    regs.write8(Reg8::B, 0xAB);
    assert_eq!(regs.read16(Reg16::BC), 0xAB00);
    regs.write8(Reg8::C, 0xCD);
    assert_eq!(regs.read16(Reg16::BC), 0xABCD);
    regs.write8(Reg8::D, 0x12);
    regs.write8(Reg8::E, 0x34);
    assert_eq!(regs.read16(Reg16::DE), 0x1234);
    regs.write8(Reg8::H, 0xFE);
    regs.write8(Reg8::L, 0xDC);
    assert_eq!(regs.read16(Reg16::HL), 0xFEDC);
    regs.write8(Reg8::A, 0x99);
    assert_eq!(regs.read16(Reg16::AF), 0x9900);
}

#[test]
fn byte_survives_round_trip_through_pair() {
    let pairs = [
        (Reg8::B, Reg16::BC),
        (Reg8::C, Reg16::BC),
        (Reg8::D, Reg16::DE),
        (Reg8::E, Reg16::DE),
        (Reg8::H, Reg16::HL),
        (Reg8::L, Reg16::HL),
        (Reg8::A, Reg16::AF),
    ];
    for (reg, pair) in pairs {
        for x in 0..=255u8 {
            let mut regs = Registers::new();
            regs.write8(reg, x);
            let v = regs.read16(pair);
            regs.write16(pair, v);
            assert_eq!(regs.read8(reg), x);
        }
    }
}

#[test]
fn pair_write_stores_all_eight_bits_of_each_half() {
    let mut regs = Registers::new();
    regs.write16(Reg16::BC, 0x12F7);
    assert_eq!(regs.read8(Reg8::B), 0x12);
    assert_eq!(regs.read8(Reg8::C), 0xF7);
    regs.write16(Reg16::DE, 0xFFFF);
    assert_eq!(regs.read8(Reg8::D), 0xFF);
    assert_eq!(regs.read8(Reg8::E), 0xFF);
    regs.write16(Reg16::HL, 0x00F0);
    assert_eq!(regs.read8(Reg8::H), 0x00);
    assert_eq!(regs.read8(Reg8::L), 0xF0);
    regs.write16(Reg16::AF, 0xA5B7);
    assert_eq!(regs.read8(Reg8::A), 0xA5);
    assert_eq!(regs.read16(Reg16::AF), 0xA5B7);
}

#[test]
fn every_pair_reads_back_every_word() {
    let pairs = [Reg16::AF, Reg16::BC, Reg16::DE, Reg16::HL, Reg16::SP, Reg16::PC];
    for pair in pairs {
        let mut v: u32 = 0;
        while v <= 0xFFFF {
            let mut regs = Registers::new();
            regs.write16(pair, v as u16);
            assert_eq!(regs.read16(pair), v as u16);
            v += 0x0101;
        }
        let mut regs = Registers::new();
        regs.write16(pair, 0xFFFF);
        assert_eq!(regs.read16(pair), 0xFFFF);
    }
}

#[test]
fn halves_recombine_to_the_word_written() {
    let mut regs = Registers::new();
    regs.write16(Reg16::HL, 0xBEEF);
    let high = regs.read8(Reg8::H) as u16;
    let low = regs.read8(Reg8::L) as u16;
    assert_eq!((high << 8) | low, 0xBEEF);
}

#[test]
fn pair_write_leaves_other_pairs_alone() {
    let mut regs = Registers::new();
    regs.write16(Reg16::BC, 0x1111);
    regs.write16(Reg16::DE, 0x2222);
    regs.write16(Reg16::HL, 0x3333);
    regs.write16(Reg16::SP, 0x4444);
    regs.write16(Reg16::PC, 0x5555);
    regs.write16(Reg16::AF, 0x6666);
    assert_eq!(regs.read16(Reg16::BC), 0x1111);
    assert_eq!(regs.read16(Reg16::DE), 0x2222);
    assert_eq!(regs.read16(Reg16::HL), 0x3333);
    assert_eq!(regs.read16(Reg16::SP), 0x4444);
    assert_eq!(regs.read16(Reg16::PC), 0x5555);
    assert_eq!(regs.read16(Reg16::AF), 0x6666);
}

#[test]
fn flags_sit_in_the_high_bits_of_the_flag_cell() {
    assert_eq!(Flag::Z.bit(), 7);
    assert_eq!(Flag::S.bit(), 6);
    assert_eq!(Flag::H.bit(), 5);
    assert_eq!(Flag::C.bit(), 4);
    let mut regs = Registers::new();
    regs.set_flag(Flag::Z, true);
    assert_eq!(regs.read16(Reg16::AF), 0x0080);
    regs.set_flag(Flag::S, true);
    assert_eq!(regs.read16(Reg16::AF), 0x00C0);
    regs.set_flag(Flag::H, true);
    assert_eq!(regs.read16(Reg16::AF), 0x00E0);
    regs.set_flag(Flag::C, true);
    assert_eq!(regs.read16(Reg16::AF), 0x00F0);
    regs.set_flag(Flag::S, false);
    assert_eq!(regs.read16(Reg16::AF), 0x00B0);
}

#[test]
fn each_flag_is_set_and_cleared_alone() {
    let flags = [Flag::Z, Flag::S, Flag::H, Flag::C];
    for flag in flags {
        for start in [0x00u16, 0x00FF, 0x00A5, 0x005A] {
            for val in [true, false] {
                let mut regs = Registers::new();
                regs.write16(Reg16::AF, 0x7700 | start);
                let before: Vec<bool> = flags.iter().map(|f| regs.get_flag(*f)).collect();
                regs.set_flag(flag, val);
                assert_eq!(regs.get_flag(flag), val);
                for (i, other) in flags.iter().enumerate() {
                    if *other != flag {
                        assert_eq!(regs.get_flag(*other), before[i]);
                    }
                }
                assert_eq!(regs.read8(Reg8::A), 0x77);
                assert_eq!(regs.read16(Reg16::AF) & 0x000F, start & 0x000F);
            }
        }
    }
}

#[test]
fn set_flags_sets_all_four() {
    let mut regs = Registers::new();
    regs.set_flags(true, false, true, false);
    assert!(regs.get_flag(Flag::Z));
    assert!(!regs.get_flag(Flag::S));
    assert!(regs.get_flag(Flag::H));
    assert!(!regs.get_flag(Flag::C));
    assert_eq!(regs.read16(Reg16::AF), 0x00A0);
}
