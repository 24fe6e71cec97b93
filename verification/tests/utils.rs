use libgameboy::utils::{BitOps, WordOps};

#[test]
fn bits_of_a_byte() {
    let x: u8 = 0b1010_0101;
    let expected = [true, false, true, false, false, true, false, true];
    for bit in 0..8u8 {
        assert_eq!(x.get_bit(bit), expected[bit as usize]);
    }
}

#[test]
fn setting_a_bit_of_a_byte_changes_that_bit_only() {
    for start in [0x00u8, 0xFF, 0xA5, 0x3C] {
        for bit in 0..8u8 {
            for val in [true, false] {
                let mut x = start;
                x.set_bit(bit, val);
                for other in 0..8u8 {
                    if other == bit {
                        assert_eq!(x.get_bit(other), val);
                    } else {
                        assert_eq!(x.get_bit(other), start.get_bit(other));
                    }
                }
            }
        }
    }
    let mut x: u8 = 0;
    x.set_bit(7, true);
    assert_eq!(x, 0x80);
    x.set_bit(0, true);
    assert_eq!(x, 0x81);
    x.set_bit(7, false);
    assert_eq!(x, 0x01);
}

#[test]
fn bits_of_a_word() {
    let mut x: u16 = 0;
    x.set_bit(15, true);
    assert_eq!(x, 0x8000);
    x.set_bit(8, true);
    assert_eq!(x, 0x8100);
    assert!(x.get_bit(15));
    assert!(x.get_bit(8));
    assert!(!x.get_bit(0));
    x.set_bit(15, false);
    assert_eq!(x, 0x0100);
}

#[test]
fn bytes_of_a_word() {
    let x: u16 = 0xABCD;
    assert_eq!(x.get_lower(), 0xCD);
    assert_eq!(x.get_upper(), 0xAB);
}

#[test]
fn setting_a_byte_of_a_word_keeps_the_other() {
    let mut x: u16 = 0xABCD;
    x.set_lower(0x12);
    assert_eq!(x, 0xAB12);
    x.set_upper(0x34);
    assert_eq!(x, 0x3412);
    let mut y: u16 = 0xFFFF;
    y.set_lower(0x00);
    assert_eq!(y, 0xFF00);
    y.set_lower(0xFF);
    y.set_upper(0x00);
    assert_eq!(y, 0x00FF);
}
