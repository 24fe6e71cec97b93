use libgameboy::z80::alu::{
    alu_add, alu_add16, alu_decimal_adjust, alu_offset, alu_sub, BinaryOp, FlagSet, Outcome,
    UnaryOp, WideSum,
};

fn flag_set(zero: bool, subtract: bool, half_carry: bool, carry: bool) -> FlagSet {
    FlagSet { zero, subtract, half_carry, carry }
}

const CLEAR: FlagSet = FlagSet { zero: false, subtract: false, half_carry: false, carry: false };

const CARRY: FlagSet = FlagSet { zero: false, subtract: false, half_carry: false, carry: true };

#[test]
fn add_carries_out_of_the_low_nibble() {
    assert_eq!(
        alu_add(0x0F, 0x01, false),
        Outcome { value: 0x10, flags: flag_set(false, false, true, false) }
    );
}

#[test]
fn add_wraps_and_carries_out_of_the_byte() {
    assert_eq!(
        alu_add(0xFF, 0x01, false),
        Outcome { value: 0x00, flags: flag_set(true, false, true, true) }
    );
    assert_eq!(
        alu_add(0xF0, 0x20, false),
        Outcome { value: 0x10, flags: flag_set(false, false, false, true) }
    );
    assert_eq!(
        alu_add(0x12, 0x34, false),
        Outcome { value: 0x46, flags: flag_set(false, false, false, false) }
    );
    assert_eq!(
        alu_add(0x00, 0x00, false),
        Outcome { value: 0x00, flags: flag_set(true, false, false, false) }
    );
}

#[test]
fn add_takes_the_carry_in_into_both_carries() {
    assert_eq!(
        alu_add(0x0F, 0x00, true),
        Outcome { value: 0x10, flags: flag_set(false, false, true, false) }
    );
    assert_eq!(
        alu_add(0xFF, 0x00, true),
        Outcome { value: 0x00, flags: flag_set(true, false, true, true) }
    );
    assert_eq!(
        alu_add(0xFF, 0xFF, true),
        Outcome { value: 0xFF, flags: flag_set(false, false, true, true) }
    );
    assert_eq!(BinaryOp::AddCarry.apply(0x01, 0x01, true).value, 0x03);
    assert_eq!(BinaryOp::Add.apply(0x01, 0x01, true).value, 0x02);
}

#[test]
fn subtract_wraps_below_zero() {
    assert_eq!(
        alu_sub(0x00, 0x01, false),
        Outcome { value: 0xFF, flags: flag_set(false, true, true, true) }
    );
    assert_eq!(
        alu_sub(0x10, 0x01, false),
        Outcome { value: 0x0F, flags: flag_set(false, true, true, false) }
    );
    assert_eq!(
        alu_sub(0x42, 0x42, false),
        Outcome { value: 0x00, flags: flag_set(true, true, false, false) }
    );
    assert_eq!(
        alu_sub(0x10, 0x20, false),
        Outcome { value: 0xF0, flags: flag_set(false, true, false, true) }
    );
}

#[test]
fn subtract_takes_the_borrow_in_into_both_borrows() {
    assert_eq!(
        alu_sub(0x00, 0x00, true),
        Outcome { value: 0xFF, flags: flag_set(false, true, true, true) }
    );
    assert_eq!(
        alu_sub(0x10, 0x0F, true),
        Outcome { value: 0x00, flags: flag_set(true, true, true, false) }
    );
    assert_eq!(
        alu_sub(0x00, 0xFF, true),
        Outcome { value: 0x00, flags: flag_set(true, true, true, true) }
    );
    assert_eq!(BinaryOp::SubCarry.apply(0x05, 0x01, true).value, 0x03);
    assert_eq!(BinaryOp::Sub.apply(0x05, 0x01, true).value, 0x04);
}

#[test]
fn compare_computes_a_subtraction_but_does_not_store() {
    assert_eq!(BinaryOp::Compare.apply(0x10, 0x10, true), alu_sub(0x10, 0x10, false));
    assert!(!BinaryOp::Compare.stores());
    for op in [
        BinaryOp::Add,
        BinaryOp::AddCarry,
        BinaryOp::Sub,
        BinaryOp::SubCarry,
        BinaryOp::And,
        BinaryOp::Or,
        BinaryOp::Xor,
    ] {
        assert!(op.stores());
    }
}

#[test]
fn bitwise_operations() {
    assert_eq!(
        BinaryOp::And.apply(0xF0, 0x3C, true),
        Outcome { value: 0x30, flags: flag_set(false, false, true, false) }
    );
    assert_eq!(
        BinaryOp::And.apply(0xF0, 0x0F, false),
        Outcome { value: 0x00, flags: flag_set(true, false, true, false) }
    );
    assert_eq!(
        BinaryOp::Or.apply(0xF0, 0x0C, true),
        Outcome { value: 0xFC, flags: flag_set(false, false, false, false) }
    );
    assert_eq!(
        BinaryOp::Or.apply(0x00, 0x00, true),
        Outcome { value: 0x00, flags: flag_set(true, false, false, false) }
    );
    assert_eq!(
        BinaryOp::Xor.apply(0xFF, 0x0F, true),
        Outcome { value: 0xF0, flags: flag_set(false, false, false, false) }
    );
    assert_eq!(
        BinaryOp::Xor.apply(0xA5, 0xA5, false),
        Outcome { value: 0x00, flags: flag_set(true, false, false, false) }
    );
}

#[test]
fn increment_and_decrement_keep_the_carry() {
    for carry in [false, true] {
        let before = flag_set(true, true, true, carry);
        assert_eq!(
            UnaryOp::Increment.apply(0x0F, before),
            Outcome { value: 0x10, flags: flag_set(false, false, true, carry) }
        );
        assert_eq!(
            UnaryOp::Increment.apply(0xFF, before),
            Outcome { value: 0x00, flags: flag_set(true, false, true, carry) }
        );
        assert_eq!(
            UnaryOp::Increment.apply(0x41, before),
            Outcome { value: 0x42, flags: flag_set(false, false, false, carry) }
        );
        assert_eq!(
            UnaryOp::Decrement.apply(0x10, before),
            Outcome { value: 0x0F, flags: flag_set(false, true, true, carry) }
        );
        assert_eq!(
            UnaryOp::Decrement.apply(0x00, before),
            Outcome { value: 0xFF, flags: flag_set(false, true, true, carry) }
        );
        assert_eq!(
            UnaryOp::Decrement.apply(0x01, before),
            Outcome { value: 0x00, flags: flag_set(true, true, false, carry) }
        );
    }
}

#[test]
fn decimal_adjust_after_addition() {
    assert_eq!(
        alu_decimal_adjust(0x0A, CLEAR),
        Outcome { value: 0x10, flags: flag_set(false, false, false, false) }
    );
    assert_eq!(
        alu_decimal_adjust(0x45, CLEAR),
        Outcome { value: 0x45, flags: flag_set(false, false, false, false) }
    );
    assert_eq!(
        alu_decimal_adjust(0x9A, CLEAR),
        Outcome { value: 0x00, flags: flag_set(true, false, false, true) }
    );
    assert_eq!(
        alu_decimal_adjust(0xA0, CLEAR),
        Outcome { value: 0x00, flags: flag_set(true, false, false, true) }
    );
    assert_eq!(
        alu_decimal_adjust(0x91, CLEAR),
        Outcome { value: 0x91, flags: flag_set(false, false, false, false) }
    );
    assert_eq!(
        alu_decimal_adjust(0x12, flag_set(false, false, true, false)),
        Outcome { value: 0x18, flags: flag_set(false, false, false, false) }
    );
    assert_eq!(
        alu_decimal_adjust(0x12, CARRY),
        Outcome { value: 0x72, flags: flag_set(false, false, false, true) }
    );
    assert_eq!(UnaryOp::DecimalAdjust.apply(0x0A, CLEAR), alu_decimal_adjust(0x0A, CLEAR));
}

#[test]
fn decimal_adjust_after_subtraction() {
    assert_eq!(
        alu_decimal_adjust(0x0F, flag_set(false, true, true, false)),
        Outcome { value: 0x09, flags: flag_set(false, true, false, false) }
    );
    assert_eq!(
        alu_decimal_adjust(0xF0, flag_set(false, true, false, true)),
        Outcome { value: 0x90, flags: flag_set(false, true, false, true) }
    );
    assert_eq!(
        alu_decimal_adjust(0x66, flag_set(false, true, true, true)),
        Outcome { value: 0x00, flags: flag_set(true, true, false, true) }
    );
    assert_eq!(
        alu_decimal_adjust(0x9A, flag_set(false, true, false, false)),
        Outcome { value: 0x9A, flags: flag_set(false, true, false, false) }
    );
}

#[test]
fn complement_inverts_every_bit() {
    assert_eq!(
        UnaryOp::Complement.apply(0x35, CLEAR),
        Outcome { value: 0xCA, flags: flag_set(false, true, true, false) }
    );
    assert_eq!(
        UnaryOp::Complement.apply(0xFF, flag_set(true, false, false, true)),
        Outcome { value: 0x00, flags: flag_set(true, true, true, true) }
    );
}

#[test]
fn rotations() {
    assert_eq!(
        UnaryOp::RotateLeft.apply(0x80, CLEAR),
        Outcome { value: 0x01, flags: flag_set(false, false, false, true) }
    );
    assert_eq!(
        UnaryOp::RotateLeft.apply(0x00, CARRY),
        Outcome { value: 0x00, flags: flag_set(true, false, false, false) }
    );
    assert_eq!(
        UnaryOp::RotateLeftCarry.apply(0x80, CLEAR),
        Outcome { value: 0x00, flags: flag_set(true, false, false, true) }
    );
    assert_eq!(
        UnaryOp::RotateLeftCarry.apply(0x01, CARRY),
        Outcome { value: 0x03, flags: flag_set(false, false, false, false) }
    );
    assert_eq!(
        UnaryOp::RotateRight.apply(0x01, CLEAR),
        Outcome { value: 0x80, flags: flag_set(false, false, false, true) }
    );
    assert_eq!(
        UnaryOp::RotateRightCarry.apply(0x01, CLEAR),
        Outcome { value: 0x00, flags: flag_set(true, false, false, true) }
    );
    assert_eq!(
        UnaryOp::RotateRightCarry.apply(0x02, CARRY),
        Outcome { value: 0x81, flags: flag_set(false, false, false, false) }
    );
}

#[test]
fn shifts_and_swap() {
    assert_eq!(
        UnaryOp::ShiftLeft.apply(0xC1, CLEAR),
        Outcome { value: 0x82, flags: flag_set(false, false, false, true) }
    );
    assert_eq!(
        UnaryOp::ShiftLeft.apply(0x80, CLEAR),
        Outcome { value: 0x00, flags: flag_set(true, false, false, true) }
    );
    assert_eq!(
        UnaryOp::ShiftRightLogical.apply(0x81, CARRY),
        Outcome { value: 0x40, flags: flag_set(false, false, false, true) }
    );
    assert_eq!(
        UnaryOp::ShiftRightLogical.apply(0x01, CLEAR),
        Outcome { value: 0x00, flags: flag_set(true, false, false, true) }
    );
    assert_eq!(
        UnaryOp::ShiftRightArithmetic.apply(0x81, CLEAR),
        Outcome { value: 0xC0, flags: flag_set(false, false, false, true) }
    );
    assert_eq!(
        UnaryOp::ShiftRightArithmetic.apply(0x7E, CARRY),
        Outcome { value: 0x3F, flags: flag_set(false, false, false, false) }
    );
    assert_eq!(
        UnaryOp::Swap.apply(0xF1, CARRY),
        Outcome { value: 0x1F, flags: flag_set(false, false, false, false) }
    );
    assert_eq!(
        UnaryOp::Swap.apply(0x00, CARRY),
        Outcome { value: 0x00, flags: flag_set(true, false, false, false) }
    );
}

#[test]
fn bit_operations() {
    for carry in [false, true] {
        let before = flag_set(false, true, false, carry);
        assert_eq!(
            UnaryOp::TestBit(7).apply(0x80, before),
            Outcome { value: 0x80, flags: flag_set(false, false, true, carry) }
        );
        assert_eq!(
            UnaryOp::TestBit(6).apply(0x80, before),
            Outcome { value: 0x80, flags: flag_set(true, false, true, carry) }
        );
        assert_eq!(
            UnaryOp::TestBit(0).apply(0x01, before),
            Outcome { value: 0x01, flags: flag_set(false, false, true, carry) }
        );
        assert_eq!(UnaryOp::SetBit(3).apply(0x00, before), Outcome { value: 0x08, flags: before });
        assert_eq!(UnaryOp::SetBit(7).apply(0x01, before), Outcome { value: 0x81, flags: before });
        assert_eq!(
            UnaryOp::ResetBit(0).apply(0xFF, before),
            Outcome { value: 0xFE, flags: before }
        );
        assert_eq!(
            UnaryOp::ResetBit(7).apply(0x7F, before),
            Outcome { value: 0x7F, flags: before }
        );
    }
    assert!(!UnaryOp::TestBit(1).stores());
    assert!(UnaryOp::SetBit(1).stores());
    assert!(UnaryOp::ResetBit(1).stores());
    assert!(UnaryOp::Increment.stores());
}

#[test]
fn displacement_carries_come_from_the_low_byte() {
    assert_eq!(alu_offset(0x00FF, 1), WideSum { value: 0x0100, half_carry: true, carry: true });
    assert_eq!(alu_offset(0x0001, -1), WideSum { value: 0x0000, half_carry: true, carry: true });
    assert_eq!(alu_offset(0x0000, -1), WideSum { value: 0xFFFF, half_carry: false, carry: false });
    assert_eq!(alu_offset(0xFFFF, 1), WideSum { value: 0x0000, half_carry: true, carry: true });
    assert_eq!(alu_offset(0x0107, -2), WideSum { value: 0x0105, half_carry: true, carry: true });
    assert_eq!(alu_offset(0x1000, 0x7F), WideSum { value: 0x107F, half_carry: false, carry: false });
    assert_eq!(alu_offset(0x1080, -128), WideSum { value: 0x1000, half_carry: false, carry: true });
    assert_eq!(alu_offset(0x0008, 8), WideSum { value: 0x0010, half_carry: true, carry: false });
}

#[test]
fn wide_addition_carries_out_of_bit_11_and_bit_15() {
    assert_eq!(alu_add16(0x0FFF, 0x0001), WideSum { value: 0x1000, half_carry: true, carry: false });
    assert_eq!(alu_add16(0xFFFF, 0x0001), WideSum { value: 0x0000, half_carry: true, carry: true });
    assert_eq!(alu_add16(0xF000, 0x1000), WideSum { value: 0x0000, half_carry: false, carry: true });
    assert_eq!(alu_add16(0x1234, 0x1111), WideSum { value: 0x2345, half_carry: false, carry: false });
    assert_eq!(alu_add16(0xFFFF, 0xFFFF), WideSum { value: 0xFFFE, half_carry: true, carry: true });
}
