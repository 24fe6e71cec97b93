//! The arithmetic unit: what each operation computes from its operands and
//! the flags, stated over the integers, and the same computed with machine
//! arithmetic.

use vstd::prelude::*;

verus! {

/// The four flags as values.
#[derive(Copy, Clone, Debug, PartialEq, Eq, Structural)]
pub struct FlagSet {
    pub zero: bool,
    pub subtract: bool,
    pub half_carry: bool,
    pub carry: bool,
}

/// What an 8-bit operation gives: the result and the flags after it.
#[derive(Copy, Clone, Debug, PartialEq, Eq, Structural)]
pub struct Outcome {
    pub value: u8,
    pub flags: FlagSet,
}

/// What a 16-bit addition gives: the sum modulo 65536, and the carries out
/// of the bit positions that the operation watches.
#[derive(Copy, Clone, Debug, PartialEq, Eq, Structural)]
pub struct WideSum {
    pub value: u16,
    pub half_carry: bool,
    pub carry: bool,
}

/// An operation on the accumulator and a second operand.
#[derive(Copy, Clone, Debug, PartialEq, Eq, Structural)]
pub enum BinaryOp {
    Add,
    AddCarry,
    Sub,
    SubCarry,
    And,
    Or,
    Xor,
    Compare,
}

/// An operation on a single 8-bit cell.
#[derive(Copy, Clone, Debug, PartialEq, Eq, Structural)]
pub enum UnaryOp {
    Increment,
    Decrement,
    DecimalAdjust,
    Complement,
    RotateLeft,
    RotateLeftCarry,
    RotateRight,
    RotateRightCarry,
    ShiftLeft,
    ShiftRightLogical,
    ShiftRightArithmetic,
    Swap,
    TestBit(u8),
    SetBit(u8),
    ResetBit(u8),
}

/// One for a set carry, zero for a clear one.
pub open spec fn bit_of(carry: bool) -> int {
    if carry {
        1
    } else {
        0
    }
}

/// `a + b + carry_in` modulo 256. Half-carry is the carry out of bit 3,
/// carry the carry out of bit 7.
pub open spec fn add_spec(a: u8, b: u8, carry_in: bool) -> Outcome {
    let sum = a + b + bit_of(carry_in);
    Outcome {
        value: (sum % 256) as u8,
        flags: FlagSet {
            zero: sum % 256 == 0,
            subtract: false,
            half_carry: a % 16 + b % 16 + bit_of(carry_in) > 15,
            carry: sum > 255,
        },
    }
}

/// `a - b - carry_in` modulo 256. Half-carry is the borrow into bit 3,
/// carry the borrow into bit 7.
pub open spec fn sub_spec(a: u8, b: u8, carry_in: bool) -> Outcome {
    let diff = a - b - bit_of(carry_in);
    Outcome {
        value: (diff % 256) as u8,
        flags: FlagSet {
            zero: diff % 256 == 0,
            subtract: true,
            half_carry: a % 16 < b % 16 + bit_of(carry_in),
            carry: a < b + bit_of(carry_in),
        },
    }
}

/// The flags of the three bitwise operations: zero from the result, the
/// other three as given.
pub open spec fn logic_spec(value: u8, half_carry: bool) -> Outcome {
    Outcome {
        value,
        flags: FlagSet { zero: value == 0, subtract: false, half_carry, carry: false },
    }
}

/// Decimal adjustment of the accumulator after an addition or subtraction
/// of two packed decimal numbers. After an addition 6 is added where the
/// low digit is above 9 or a half-carry came out, and 0x60 where the value
/// is above 0x99 or a carry came out, which then sets the carry. After a
/// subtraction 6 is taken off where a half-borrow occurred and 0x60 where a
/// borrow occurred, and the carry stays.
pub open spec fn decimal_adjust_spec(a: u8, flags: FlagSet) -> Outcome {
    let low: int = if flags.half_carry || (!flags.subtract && a % 16 > 9) {
        6
    } else {
        0
    };
    let high: int = if flags.carry || (!flags.subtract && a > 0x99) {
        0x60
    } else {
        0
    };
    let adjusted = if flags.subtract {
        a - low - high
    } else {
        a + low + high
    };
    Outcome {
        value: (adjusted % 256) as u8,
        flags: FlagSet {
            zero: adjusted % 256 == 0,
            subtract: flags.subtract,
            half_carry: false,
            carry: flags.carry || (!flags.subtract && a > 0x99),
        },
    }
}

/// The flags of a rotation or shift: zero from the result, carry from the
/// bit that left the cell.
pub open spec fn shifted(value: int, out: bool) -> Outcome {
    Outcome {
        value: value as u8,
        flags: FlagSet { zero: value == 0, subtract: false, half_carry: false, carry: out },
    }
}

impl BinaryOp {
    /// Whether the operation stores its result in the accumulator.
    pub open spec fn spec_stores(self) -> bool {
        self != BinaryOp::Compare
    }

    /// The result and flags of the operation on accumulator `a` and operand
    /// `b`, with the carry flag as it stood before.
    pub open spec fn spec_apply(self, a: u8, b: u8, carry: bool) -> Outcome {
        match self {
            BinaryOp::Add => add_spec(a, b, false),
            BinaryOp::AddCarry => add_spec(a, b, carry),
            BinaryOp::Sub => sub_spec(a, b, false),
            BinaryOp::SubCarry => sub_spec(a, b, carry),
            BinaryOp::And => logic_spec(a & b, true),
            BinaryOp::Or => logic_spec(a | b, false),
            BinaryOp::Xor => logic_spec(a ^ b, false),
            BinaryOp::Compare => sub_spec(a, b, false),
        }
    }

    pub fn stores(self) -> (r: bool)
        ensures
            r == self.spec_stores(),
    {
        match self {
            BinaryOp::Compare => false,
            _ => true,
        }
    }

    pub fn apply(self, a: u8, b: u8, carry: bool) -> (r: Outcome)
        ensures
            r == self.spec_apply(a, b, carry),
    {
        match self {
            BinaryOp::Add => alu_add(a, b, false),
            BinaryOp::AddCarry => alu_add(a, b, carry),
            BinaryOp::Sub => alu_sub(a, b, false),
            BinaryOp::SubCarry => alu_sub(a, b, carry),
            BinaryOp::And => {
                let value: u8 = a & b;
                Outcome {
                    value,
                    flags: FlagSet {
                        zero: value == 0,
                        subtract: false,
                        half_carry: true,
                        carry: false,
                    },
                }
            },
            BinaryOp::Or => {
                let value: u8 = a | b;
                Outcome {
                    value,
                    flags: FlagSet {
                        zero: value == 0,
                        subtract: false,
                        half_carry: false,
                        carry: false,
                    },
                }
            },
            BinaryOp::Xor => {
                let value: u8 = a ^ b;
                Outcome {
                    value,
                    flags: FlagSet {
                        zero: value == 0,
                        subtract: false,
                        half_carry: false,
                        carry: false,
                    },
                }
            },
            BinaryOp::Compare => alu_sub(a, b, false),
        }
    }
}

impl UnaryOp {
    /// Whether the operation stores its result in the cell it read.
    pub open spec fn spec_stores(self) -> bool {
        !(self is TestBit)
    }

    /// The result and flags of the operation on the value `v` of a cell,
    /// with the flags as they stood before. The index of a bit operation
    /// counts modulo 8.
    pub open spec fn spec_apply(self, v: u8, flags: FlagSet) -> Outcome {
        match self {
            UnaryOp::Increment => Outcome {
                value: ((v + 1) % 256) as u8,
                flags: FlagSet {
                    zero: v == 255,
                    subtract: false,
                    half_carry: v % 16 == 15,
                    carry: flags.carry,
                },
            },
            UnaryOp::Decrement => Outcome {
                value: ((v - 1) % 256) as u8,
                flags: FlagSet {
                    zero: v == 1,
                    subtract: true,
                    half_carry: v % 16 == 0,
                    carry: flags.carry,
                },
            },
            UnaryOp::DecimalAdjust => decimal_adjust_spec(v, flags),
            UnaryOp::Complement => Outcome {
                value: (255 - v) as u8,
                flags: FlagSet { subtract: true, half_carry: true, ..flags },
            },
            UnaryOp::RotateLeft => shifted((v * 2) % 256 + v / 128, v >= 128),
            UnaryOp::RotateLeftCarry => shifted((v * 2) % 256 + bit_of(flags.carry), v >= 128),
            UnaryOp::RotateRight => shifted(v / 2 + (v % 2) * 128, v % 2 == 1),
            UnaryOp::RotateRightCarry => shifted(v / 2 + bit_of(flags.carry) * 128, v % 2 == 1),
            UnaryOp::ShiftLeft => shifted((v * 2) % 256, v >= 128),
            UnaryOp::ShiftRightLogical => shifted((v / 2) as int, v % 2 == 1),
            UnaryOp::ShiftRightArithmetic => shifted(v / 2 + (v / 128) * 128, v % 2 == 1),
            UnaryOp::Swap => shifted((v % 16) * 16 + v / 16, false),
            UnaryOp::TestBit(bit) => Outcome {
                value: v,
                flags: FlagSet {
                    zero: (v >> (bit % 8)) & 1 == 0,
                    subtract: false,
                    half_carry: true,
                    carry: flags.carry,
                },
            },
            UnaryOp::SetBit(bit) => Outcome { value: v | (1u8 << (bit % 8)), flags },
            UnaryOp::ResetBit(bit) => Outcome { value: v & !(1u8 << (bit % 8)), flags },
        }
    }

    pub fn stores(self) -> (r: bool)
        ensures
            r == self.spec_stores(),
    {
        match self {
            UnaryOp::TestBit(_) => false,
            _ => true,
        }
    }

    pub fn apply(self, v: u8, flags: FlagSet) -> (r: Outcome)
        ensures
            r == self.spec_apply(v, flags),
    {
        let carry_in: u8 = if flags.carry {
            1
        } else {
            0
        };
        proof {
            lemma_shift_bits(v, carry_in);
        }
        match self {
            UnaryOp::Increment => {
                let value: u8 = if v == 255 {
                    0
                } else {
                    v + 1
                };
                Outcome {
                    value,
                    flags: FlagSet {
                        zero: value == 0,
                        subtract: false,
                        half_carry: (v % 16) + 1 > 0xF,
                        carry: flags.carry,
                    },
                }
            },
            UnaryOp::Decrement => {
                let value: u8 = if v == 0 {
                    255
                } else {
                    v - 1
                };
                Outcome {
                    value,
                    flags: FlagSet {
                        zero: value == 0,
                        subtract: true,
                        half_carry: (v % 16) < 1,
                        carry: flags.carry,
                    },
                }
            },
            UnaryOp::DecimalAdjust => alu_decimal_adjust(v, flags),
            UnaryOp::Complement => Outcome {
                value: !v,
                flags: FlagSet {
                    zero: flags.zero,
                    subtract: true,
                    half_carry: true,
                    carry: flags.carry,
                },
            },
            UnaryOp::RotateLeft => alu_shifted(v << 1 | v >> 7, v >> 7 == 1),
            UnaryOp::RotateLeftCarry => alu_shifted(v << 1 | carry_in, v >> 7 == 1),
            UnaryOp::RotateRight => alu_shifted(v >> 1 | (v & 1) << 7, v & 1 == 1),
            UnaryOp::RotateRightCarry => alu_shifted(v >> 1 | carry_in << 7, v & 1 == 1),
            UnaryOp::ShiftLeft => alu_shifted(v << 1, v >> 7 == 1),
            UnaryOp::ShiftRightLogical => alu_shifted(v >> 1, v & 1 == 1),
            UnaryOp::ShiftRightArithmetic => alu_shifted(v >> 1 | (v & 0x80), v & 1 == 1),
            UnaryOp::Swap => alu_shifted(v >> 4 | v << 4, false),
            UnaryOp::TestBit(bit) => Outcome {
                value: v,
                flags: FlagSet {
                    zero: (v >> (bit % 8)) & 1 == 0,
                    subtract: false,
                    half_carry: true,
                    carry: flags.carry,
                },
            },
            UnaryOp::SetBit(bit) => Outcome { value: v | (1u8 << (bit % 8)), flags },
            UnaryOp::ResetBit(bit) => Outcome { value: v & !(1u8 << (bit % 8)), flags },
        }
    }
}

proof fn lemma_shift_bits(v: u8, c: u8)
    requires
        c <= 1,
    ensures
        !v == 255 - v,
        (v >> 7 == 1) == (v >= 128),
        (v & 1 == 1) == (v % 2 == 1),
        v << 1 | v >> 7 == (v * 2) % 256 + v / 128,
        v << 1 | c == (v * 2) % 256 + c,
        v >> 1 | (v & 1) << 7 == v / 2 + (v % 2) * 128,
        v >> 1 | c << 7 == v / 2 + c * 128,
        v << 1 == (v * 2) % 256,
        v >> 1 == v / 2,
        v >> 1 | (v & 0x80) == v / 2 + (v / 128) * 128,
        v >> 4 | v << 4 == (v % 16) * 16 + v / 16,
{
    assert(!v == 255 - v) by (bit_vector);
    assert((v >> 7 == 1) == (v >= 128)) by (bit_vector);
    assert((v & 1 == 1) == (v % 2 == 1)) by (bit_vector);
    assert(v << 1 | v >> 7 == (v * 2) % 256 + v / 128) by (bit_vector);
    assert(v << 1 | c == (v * 2) % 256 + c) by (bit_vector)
        requires
            c <= 1,
    ;
    assert(v >> 1 | (v & 1) << 7 == v / 2 + (v % 2) * 128) by (bit_vector);
    assert(v >> 1 | c << 7 == v / 2 + c * 128) by (bit_vector)
        requires
            c <= 1,
    ;
    assert(v << 1 == (v * 2) % 256) by (bit_vector);
    assert(v >> 1 == v / 2) by (bit_vector);
    assert(v >> 1 | (v & 0x80) == v / 2 + (v / 128) * 128) by (bit_vector);
    assert(v >> 4 | v << 4 == (v % 16) * 16 + v / 16) by (bit_vector);
}

fn alu_shifted(value: u8, out: bool) -> (r: Outcome)
    ensures
        r == shifted(value as int, out),
{
    Outcome {
        value,
        flags: FlagSet { zero: value == 0, subtract: false, half_carry: false, carry: out },
    }
}

/// Addition with carry-in, as the add and add-with-carry instructions do it.
pub fn alu_add(a: u8, b: u8, carry_in: bool) -> (r: Outcome)
    ensures
        r == add_spec(a, b, carry_in),
{
    let carry: u8 = if carry_in {
        1
    } else {
        0
    };
    let sum: u16 = (a as u16) + (b as u16) + (carry as u16);
    let value: u8 = (sum % 256) as u8;
    Outcome {
        value,
        flags: FlagSet {
            zero: value == 0,
            subtract: false,
            half_carry: ((a % 16) + (b % 16) + carry) > 0xF,
            carry: sum > 0xFF,
        },
    }
}

/// Subtraction with borrow-in, as the subtract, subtract-with-carry and
/// compare instructions do it.
pub fn alu_sub(a: u8, b: u8, carry_in: bool) -> (r: Outcome)
    ensures
        r == sub_spec(a, b, carry_in),
{
    let carry: u8 = if carry_in {
        1
    } else {
        0
    };
    let diff: u16 = 0x200 + (a as u16) - (b as u16) - (carry as u16);
    let value: u8 = (diff % 256) as u8;
    Outcome {
        value,
        flags: FlagSet {
            zero: value == 0,
            subtract: true,
            half_carry: (a % 16) < (b % 16) + carry,
            carry: (a as u16) < (b as u16) + (carry as u16),
        },
    }
}

/// Decimal adjustment of the accumulator.
pub fn alu_decimal_adjust(a: u8, flags: FlagSet) -> (r: Outcome)
    ensures
        r == decimal_adjust_spec(a, flags),
{
    let mut wide: u16 = 0x100 + (a as u16);
    let mut carry: bool = flags.carry;
    if flags.subtract {
        if flags.half_carry {
            wide = wide - 0x06;
        }
        if flags.carry {
            wide = wide - 0x60;
        }
    } else {
        if (a % 16) > 0x09 || flags.half_carry {
            wide = wide + 0x06;
        }
        if a > 0x99 || flags.carry {
            wide = wide + 0x60;
            carry = true;
        }
    }
    let value: u8 = (wide % 256) as u8;
    Outcome {
        value,
        flags: FlagSet { zero: value == 0, subtract: flags.subtract, half_carry: false, carry },
    }
}

/// A signed displacement as the byte that encodes it.
pub open spec fn byte_of(offset: i8) -> int {
    if offset < 0 {
        offset + 256
    } else {
        offset as int
    }
}

/// `base + offset` modulo 65536. The two carries are those of adding the
/// byte that encodes the displacement to the low byte of `base`, unsigned:
/// out of bit 3 and out of bit 7.
pub open spec fn offset_spec(base: u16, offset: i8) -> WideSum {
    WideSum {
        value: ((base + offset) % 65536) as u16,
        half_carry: base % 16 + byte_of(offset) % 16 > 15,
        carry: base % 256 + byte_of(offset) > 255,
    }
}

/// `left + right` modulo 65536, with the carries out of bit 11 and bit 15.
pub open spec fn add16_spec(left: u16, right: u16) -> WideSum {
    WideSum {
        value: ((left + right) % 65536) as u16,
        half_carry: left % 4096 + right % 4096 > 4095,
        carry: left + right > 65535,
    }
}

/// Adds a signed displacement to a 16-bit value.
pub fn alu_offset(base: u16, offset: i8) -> (r: WideSum)
    ensures
        r == offset_spec(base, offset),
{
    let byte: u8 = if offset < 0 {
        (offset as i16 + 256) as u8
    } else {
        offset as u8
    };
    let wide: i32 = (base as i32) + (offset as i32);
    let value: u16 = if wide < 0 {
        (wide + 65536) as u16
    } else if wide > 65535 {
        (wide - 65536) as u16
    } else {
        wide as u16
    };
    WideSum {
        value,
        half_carry: (base % 16) + ((byte as u16) % 16) > 0xF,
        carry: (base % 256) + (byte as u16) > 0xFF,
    }
}

/// Adds two 16-bit values.
pub fn alu_add16(left: u16, right: u16) -> (r: WideSum)
    ensures
        r == add16_spec(left, right),
{
    let wide: u32 = (left as u32) + (right as u32);
    let value: u16 = if wide > 0xFFFF {
        (wide - 0x10000) as u16
    } else {
        wide as u16
    };
    WideSum {
        value,
        half_carry: (left % 0x1000) + (right % 0x1000) > 0xFFF,
        carry: wide > 0xFFFF,
    }
}

/// What the outcomes leave alone: an increment or decrement keeps the carry
/// flag; a bit test keeps the value and the carry flag and forces
/// half-carry; setting or clearing a bit keeps all four flags.
pub proof fn lemma_untouched_flags(op: UnaryOp, v: u8, flags: FlagSet)
    ensures
        (op is Increment || op is Decrement || op is TestBit) ==> op.spec_apply(
            v,
            flags,
        ).flags.carry == flags.carry,
        op is TestBit ==> op.spec_apply(v, flags).value == v && op.spec_apply(
            v,
            flags,
        ).flags.half_carry && !op.spec_apply(v, flags).flags.subtract,
        (op is SetBit || op is ResetBit) ==> op.spec_apply(v, flags).flags == flags,
{
}

/// The zero flag of an addition or subtraction says whether the result is
/// zero, and the result is congruent to the exact sum or difference.
pub proof fn lemma_arithmetic_result(a: u8, b: u8, carry_in: bool)
    ensures
        add_spec(a, b, carry_in).flags.zero == (add_spec(a, b, carry_in).value == 0),
        sub_spec(a, b, carry_in).flags.zero == (sub_spec(a, b, carry_in).value == 0),
        add_spec(a, b, carry_in).value == a + b + bit_of(carry_in) - (if add_spec(
            a,
            b,
            carry_in,
        ).flags.carry {
            256int
        } else {
            0int
        }),
        sub_spec(a, b, carry_in).value == a - b - bit_of(carry_in) + (if sub_spec(
            a,
            b,
            carry_in,
        ).flags.carry {
            256int
        } else {
            0int
        }),
{
}

} // verus!
