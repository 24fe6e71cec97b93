use libgameboy::fault::{Access, Fault};
use libgameboy::mmu::MMU;
use libgameboy::Cartridge;

fn mmu_test_image(len: usize) -> Vec<u8> {
    let mut image = vec![0u8; len];
    for (i, byte) in image.iter_mut().enumerate() {
        *byte = (i % 251) as u8;
    }
    for byte in image[0x0134..0x0143].iter_mut() {
        *byte = 0;
    }
    image[0x0149] = 0;
    image
}

fn mmu_test_boot() -> [u8; 256] {
    let mut boot = [0u8; 256];
    for (i, byte) in boot.iter_mut().enumerate() {
        *byte = 0xFF - (i as u8);
    }
    boot
}

fn mmu_under_test(len: usize) -> MMU {
    MMU::new(Cartridge::from_buffer(mmu_test_image(len)).unwrap(), mmu_test_boot())
}

fn read_fault(addr: u16) -> Fault {
    Fault::Address { addr, access: Access::Read }
}

fn write_fault(addr: u16) -> Fault {
    Fault::Address { addr, access: Access::Write }
}

#[test]
fn boot_overlay_covers_the_first_page() {
    let mmu = mmu_under_test(0x8000);
    assert_eq!(mmu.read8(0x0000), Ok(0xFF));
    assert_eq!(mmu.read8(0x0001), Ok(0xFE));
    assert_eq!(mmu.read8(0x00FF), Ok(0x00));
}

#[test]
fn cartridge_shows_behind_the_overlay() {
    let mmu = mmu_under_test(0x8000);
    assert_eq!(mmu.read8(0x0100), Ok((0x0100 % 251) as u8));
    assert_eq!(mmu.read8(0x3FFF), Ok((0x3FFF % 251) as u8));
    assert_eq!(mmu.read8(0x0149), Ok(0));
}

#[test]
fn first_and_last_address_of_every_region_succeed() {
    let mut mmu = mmu_under_test(0x8000);
    for addr in [0x0000u16, 0x00FF, 0x0100, 0x3FFF, 0x8000, 0x9FFF, 0xC000, 0xDFFF] {
        assert!(mmu.read8(addr).is_ok(), "read of {:#06x}", addr);
    }
    for addr in [0x8000u16, 0x9FFF, 0xC000, 0xDFFF] {
        assert_eq!(mmu.write8(addr, 0x5A), Ok(()));
        assert_eq!(mmu.read8(addr), Ok(0x5A));
    }
}

#[test]
fn one_past_the_end_of_a_region_faults() {
    let mut mmu = mmu_under_test(0x8000);
    for addr in [0x4000u16, 0xA000, 0xE000] {
        assert_eq!(mmu.read8(addr), Err(read_fault(addr)));
        assert_eq!(mmu.write8(addr, 1), Err(write_fault(addr)));
    }
    for addr in [0x7FFFu16, 0xBFFF, 0xFFFF] {
        assert_eq!(mmu.read8(addr), Err(read_fault(addr)));
        assert_eq!(mmu.write8(addr, 1), Err(write_fault(addr)));
    }
}

#[test]
fn rom_regions_are_read_only() {
    let mut mmu = mmu_under_test(0x8000);
    for addr in [0x0000u16, 0x00FF, 0x0100, 0x3FFF] {
        let before = mmu.read8(addr);
        assert_eq!(mmu.write8(addr, 0x77), Err(write_fault(addr)));
        assert_eq!(mmu.read8(addr), before);
    }
}

#[test]
fn short_cartridge_ends_the_window_early() {
    let mmu = mmu_under_test(0x0200);
    assert_eq!(mmu.read8(0x01FF), Ok((0x01FF % 251) as u8));
    assert_eq!(mmu.read8(0x0200), Err(read_fault(0x0200)));
    assert_eq!(mmu.read8(0x3FFF), Err(read_fault(0x3FFF)));
    assert_eq!(mmu.read8(0x0000), Ok(0xFF));
}

#[test]
fn ram_starts_zeroed() {
    let mmu = mmu_under_test(0x8000);
    for addr in [0x8000u16, 0x8ABC, 0x9FFF, 0xC000, 0xCDEF, 0xDFFF] {
        assert_eq!(mmu.read8(addr), Ok(0));
    }
}

#[test]
fn word_reads_back_and_is_little_endian() {
    let mut mmu = mmu_under_test(0x8000);
    for addr in [0x8000u16, 0x9FFE, 0xC000, 0xC123, 0xDFFE] {
        for val in [0x0000u16, 0x1234, 0xFF00, 0x00FF, 0xABCD, 0xFFFF] {
            assert_eq!(mmu.write16(addr, val), Ok(()));
            assert_eq!(mmu.read16(addr), Ok(val));
            assert_eq!(mmu.read8(addr), Ok((val & 0xFF) as u8));
            assert_eq!(mmu.read8(addr + 1), Ok((val >> 8) as u8));
        }
    }
}

#[test]
fn word_write_touches_two_bytes_only() {
    let mut mmu = mmu_under_test(0x8000);
    mmu.write8(0xC0FF, 0x11).unwrap();
    mmu.write8(0xC102, 0x22).unwrap();
    mmu.write16(0xC100, 0xBEEF).unwrap();
    assert_eq!(mmu.read8(0xC0FF), Ok(0x11));
    assert_eq!(mmu.read8(0xC100), Ok(0xEF));
    assert_eq!(mmu.read8(0xC101), Ok(0xBE));
    assert_eq!(mmu.read8(0xC102), Ok(0x22));
}

#[test]
fn word_read_from_rom_joins_two_bytes() {
    let mmu = mmu_under_test(0x8000);
    let lo = (0x0200 % 251) as u16;
    let hi = (0x0201 % 251) as u16;
    assert_eq!(mmu.read16(0x0200), Ok((hi << 8) | lo));
    assert_eq!(mmu.read16(0x00FF), Ok((((0x0100 % 251) as u16) << 8) | 0x00));
}

#[test]
fn word_access_across_the_end_of_a_region_faults_and_writes_nothing() {
    let mut mmu = mmu_under_test(0x8000);
    assert_eq!(mmu.write16(0x9FFF, 0x1234), Err(write_fault(0xA000)));
    assert_eq!(mmu.read8(0x9FFF), Ok(0));
    assert_eq!(mmu.write16(0xDFFF, 0x1234), Err(write_fault(0xE000)));
    assert_eq!(mmu.read8(0xDFFF), Ok(0));
    assert_eq!(mmu.read16(0x9FFF), Err(read_fault(0xA000)));
    assert_eq!(mmu.read16(0x3FFF), Err(read_fault(0x4000)));
    assert_eq!(mmu.read16(0xFFFF), Err(read_fault(0xFFFF)));
    assert_eq!(mmu.write16(0xFFFF, 1), Err(write_fault(0xFFFF)));
    assert_eq!(mmu.write16(0x7FFF, 1), Err(write_fault(0x7FFF)));
}
