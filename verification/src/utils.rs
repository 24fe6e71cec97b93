//! Single bits of an integer, and the two bytes of a 16-bit word.

use vstd::prelude::*;

verus! {

pub trait BitOps: Sized {
    /// The number of bits of the type.
    spec fn bit_count() -> nat;

    /// Whether the bit at position `bit` is set.
    spec fn bit(self, bit: u8) -> bool;

    /// The value with the bit at position `bit` set or cleared.
    spec fn with_bit(self, bit: u8, val: bool) -> Self;

    fn get_bit(&self, bit: u8) -> (r: bool)
        requires
            bit < Self::bit_count(),
        ensures
            r == self.bit(bit),
    ;

    fn set_bit(&mut self, bit: u8, val: bool)
        requires
            bit < Self::bit_count(),
        ensures
            *final(self) == old(self).with_bit(bit, val),
    ;
}

impl BitOps for u8 {
    open spec fn bit_count() -> nat {
        8
    }

    open spec fn bit(self, bit: u8) -> bool {
        (self >> bit) & 1 == 1
    }

    open spec fn with_bit(self, bit: u8, val: bool) -> u8 {
        if val {
            self | (1u8 << bit)
        } else {
            self & !(1u8 << bit)
        }
    }

    fn get_bit(&self, bit: u8) -> (r: bool) {
        (*self >> bit) & 1 == 1
    }

    fn set_bit(&mut self, bit: u8, val: bool) {
        if val {
            *self = *self | (1u8 << bit);
        } else {
            *self = *self & !(1u8 << bit);
        }
    }
}

impl BitOps for u16 {
    open spec fn bit_count() -> nat {
        16
    }

    open spec fn bit(self, bit: u8) -> bool {
        (self >> bit) & 1 == 1
    }

    open spec fn with_bit(self, bit: u8, val: bool) -> u16 {
        if val {
            self | (1u16 << bit)
        } else {
            self & !(1u16 << bit)
        }
    }

    fn get_bit(&self, bit: u8) -> (r: bool) {
        (*self >> bit) & 1 == 1
    }

    fn set_bit(&mut self, bit: u8, val: bool) {
        if val {
            *self = *self | (1u16 << bit);
        } else {
            *self = *self & !(1u16 << bit);
        }
    }
}

/// A bit of a byte reads as it was last set, and setting one bit leaves the
/// others as they were.
pub proof fn lemma_set_bit_get_bit_u8(x: u8, bit: u8, other: u8, val: bool)
    requires
        bit < 8,
        other < 8,
    ensures
        x.with_bit(bit, val).bit(bit) == val,
        other != bit ==> x.with_bit(bit, val).bit(other) == x.bit(other),
{
    assert(((x | (1u8 << bit)) >> bit) & 1 == 1 && ((x & !(1u8 << bit)) >> bit) & 1 == 0 && (other
        != bit ==> ((x | (1u8 << bit)) >> other) & 1 == (x >> other) & 1 && ((x & !(1u8 << bit))
        >> other) & 1 == (x >> other) & 1)) by (bit_vector)
        requires
            bit < 8,
            other < 8,
    ;
}

/// A bit of a word reads as it was last set, and setting one bit leaves the
/// others as they were.
pub proof fn lemma_set_bit_get_bit_u16(x: u16, bit: u8, other: u8, val: bool)
    requires
        bit < 16,
        other < 16,
    ensures
        x.with_bit(bit, val).bit(bit) == val,
        other != bit ==> x.with_bit(bit, val).bit(other) == x.bit(other),
{
    assert(((x | (1u16 << bit)) >> bit) & 1 == 1 && ((x & !(1u16 << bit)) >> bit) & 1 == 0 && (
    other != bit ==> ((x | (1u16 << bit)) >> other) & 1 == (x >> other) & 1 && ((x & !(1u16
        << bit)) >> other) & 1 == (x >> other) & 1)) by (bit_vector)
        requires
            bit < 16,
            other < 16,
    ;
}

/// Giving a bit of a byte the state that the same bit has in `val` takes
/// that bit from `val` and every other bit from the byte.
pub proof fn lemma_put_bit(x: u8, val: u8, bit: u8)
    requires
        bit < 8,
    ensures
        x.with_bit(bit, val.bit(bit)) == (x & !(1u8 << bit)) | (val & (1u8 << bit)),
{
    assert(((val >> bit) & 1 == 1 ==> x | (1u8 << bit) == (x & !(1u8 << bit)) | (val & (1u8
        << bit))) && ((val >> bit) & 1 != 1 ==> x & !(1u8 << bit) == (x & !(1u8 << bit)) | (val & (
    1u8 << bit)))) by (bit_vector)
        requires
            bit < 8,
    ;
}

pub trait WordOps: Sized {
    /// The low byte of the word.
    spec fn lower(self) -> u8;

    /// The high byte of the word.
    spec fn upper(self) -> u8;

    /// The word after `set_lower(val)`.
    spec fn with_lower(self, val: u8) -> Self;

    /// The word after `set_upper(val)`.
    spec fn with_upper(self, val: u8) -> Self;

    fn get_lower(&self) -> (r: u8)
        ensures
            r == self.lower(),
    ;

    fn get_upper(&self) -> (r: u8)
        ensures
            r == self.upper(),
    ;

    fn set_lower(&mut self, val: u8)
        ensures
            *final(self) == old(self).with_lower(val),
    ;

    fn set_upper(&mut self, val: u8)
        ensures
            *final(self) == old(self).with_upper(val),
    ;
}

proof fn lemma_word_halves(x: u16, val: u8)
    by (bit_vector)
    ensures
        (x & 0xFF) as u8 == x % 256,
        (x >> 8) as u8 == x / 256,
        (x & 0xFF00) | (val as u16) == (x / 256) * 256 + val,
        (x & 0x00FF) | ((val as u16) << 8) == val * 256 + x % 256,
{
}

impl WordOps for u16 {
    open spec fn lower(self) -> u8 {
        (self % 256) as u8
    }

    open spec fn upper(self) -> u8 {
        (self / 256) as u8
    }

    /// The word with `val` as its low byte and the high byte as it was.
    open spec fn with_lower(self, val: u8) -> u16 {
        ((self / 256) * 256 + val) as u16
    }

    /// The word with `val` as its high byte and the low byte as it was.
    open spec fn with_upper(self, val: u8) -> u16 {
        (val * 256 + self % 256) as u16
    }

    fn get_lower(&self) -> (r: u8) {
        proof {
            lemma_word_halves(*self, 0);
        }
        (*self & 0xFF) as u8
    }

    fn get_upper(&self) -> (r: u8) {
        proof {
            lemma_word_halves(*self, 0);
        }
        (*self >> 8) as u8
    }

    fn set_lower(&mut self, val: u8) {
        proof {
            lemma_word_halves(*self, val);
        }
        *self = (*self & 0xFF00) | (val as u16);
    }

    fn set_upper(&mut self, val: u8) {
        proof {
            lemma_word_halves(*self, val);
        }
        *self = (*self & 0x00FF) | ((val as u16) << 8);
    }
}

/// Each byte of a word reads as it was last set, all eight bits of it, and
/// setting one byte leaves the other as it was.
pub proof fn lemma_set_byte_get_byte(x: u16, val: u8)
    ensures
        x.with_lower(val).lower() == val,
        x.with_lower(val).upper() == x.upper(),
        x.with_upper(val).upper() == val,
        x.with_upper(val).lower() == x.lower(),
        x.with_lower(x.lower()) == x,
        x.with_upper(x.upper()) == x,
{
}

} // verus!
