//! The volume envelope of a channel.

use vstd::prelude::*;

verus! {

#[derive(Copy, Clone, Debug, PartialEq, Eq, Structural)]
pub enum Direction {
    Increase,
    Decrease,
}

/// The envelope: bits 4 to 6 of its byte hold the initial volume, bit 3 the
/// direction (set for decrease), bits 0 to 2 the step size.
#[derive(Copy, Clone, Debug, PartialEq, Eq, Structural)]
pub struct EnvelopeRegister {
    pub initial_volume: u8,
    pub direction: Direction,
    pub step_size: u8,
}

impl EnvelopeRegister {
    /// The envelope that a byte unpacks to.
    pub open spec fn unpack(byte: u8) -> EnvelopeRegister {
        EnvelopeRegister {
            initial_volume: (byte >> 4) & 0b111,
            direction: if (byte >> 3) & 0b1 == 1 {
                Direction::Decrease
            } else {
                Direction::Increase
            },
            step_size: byte & 0b111,
        }
    }

    /// The byte that the envelope packs to.
    pub open spec fn pack(self) -> u8 {
        match self.direction {
            Direction::Decrease => ((self.initial_volume << 4) | 0x8) | self.step_size,
            Direction::Increase => (self.initial_volume << 4) | self.step_size,
        }
    }

    /// The envelope with volume and step zero, increasing.
    pub fn new() -> (r: EnvelopeRegister)
        ensures
            r == (EnvelopeRegister {
                initial_volume: 0,
                direction: Direction::Increase,
                step_size: 0,
            }),
    {
        EnvelopeRegister { initial_volume: 0, direction: Direction::Increase, step_size: 0 }
    }

    pub fn from_byte(byte: u8) -> (r: EnvelopeRegister)
        ensures
            r == Self::unpack(byte),
    {
        EnvelopeRegister {
            initial_volume: (byte >> 4) & 0b111,
            direction: if (byte >> 3) & 0b1 == 1 {
                Direction::Decrease
            } else {
                Direction::Increase
            },
            step_size: byte & 0b111,
        }
    }

    pub fn into_byte(self) -> (r: u8)
        ensures
            r == self.pack(),
    {
        let mut out: u8 = self.initial_volume << 4;
        match self.direction {
            Direction::Decrease => {
                out = out | 0x8;
            },
            Direction::Increase => {},
        }
        out = out | self.step_size;
        out
    }
}

/// A byte that is unpacked and packed again keeps its low seven bits; bit 7
/// belongs to no field and is dropped.
pub proof fn lemma_envelope_round_trip(byte: u8)
    ensures
        EnvelopeRegister::unpack(byte).pack() == byte & 0x7F,
{
    assert((byte >> 3) & 0b1 == 1 ==> ((((byte >> 4) & 0b111) << 4) | 0x8) | (byte & 0b111) == byte
        & 0x7F) by (bit_vector);
    assert((byte >> 3) & 0b1 != 1 ==> (((byte >> 4) & 0b111) << 4) | (byte & 0b111) == byte & 0x7F)
        by (bit_vector);
}

} // verus!
