//! The noise channel.

use vstd::prelude::*;

use crate::sound::envelope::{lemma_envelope_round_trip, Direction, EnvelopeRegister};
use crate::utils::{lemma_put_bit, BitOps};

verus! {

#[derive(Copy, Clone, Debug, PartialEq, Eq, Structural)]
pub enum Regularity {
    Regular,
    Irregular,
}

/// The registers of the noise channel.
#[derive(Copy, Clone, Debug, PartialEq, Eq, Structural)]
pub struct NoiseChannel {
    pub sound_length: u8,
    pub envelope: EnvelopeRegister,
    pub shift_clock_frequency: u8,
    pub regularity: Regularity,
    pub dividing_ratio: u8,
    pub restart_sound: bool,
    pub use_sound_length: bool,
}

impl NoiseChannel {
    /// The channel has registers at the relative addresses 1 to 4.
    pub open spec fn has_register(reladdr: u8) -> bool {
        1 <= reladdr <= 4
    }

    /// The byte that the register at the relative address reads as.
    pub open spec fn spec_read(self, reladdr: u8) -> u8 {
        if reladdr == 1 {
            self.sound_length
        } else if reladdr == 2 {
            self.envelope.pack()
        } else if reladdr == 3 {
            let shifted = self.shift_clock_frequency << 4;
            match self.regularity {
                Regularity::Regular => shifted.with_bit(3, true) | self.dividing_ratio,
                Regularity::Irregular => shifted | self.dividing_ratio,
            }
        } else {
            0u8.with_bit(6, self.use_sound_length).with_bit(7, self.restart_sound)
        }
    }

    /// The channel after `val` is written to the register at the relative
    /// address.
    pub open spec fn spec_write(self, reladdr: u8, val: u8) -> NoiseChannel {
        if reladdr == 1 {
            NoiseChannel { sound_length: val, ..self }
        } else if reladdr == 2 {
            NoiseChannel { envelope: EnvelopeRegister::unpack(val), ..self }
        } else if reladdr == 3 {
            NoiseChannel {
                shift_clock_frequency: (val >> 4) & 0b1111,
                regularity: if val.bit(3) {
                    Regularity::Regular
                } else {
                    Regularity::Irregular
                },
                dividing_ratio: val & 0b111,
                ..self
            }
        } else {
            NoiseChannel { use_sound_length: val.bit(6), restart_sound: val.bit(7), ..self }
        }
    }

    /// An irregular, silent channel with every register zero.
    pub fn new() -> (r: NoiseChannel)
        ensures
            r == (NoiseChannel {
                sound_length: 0,
                envelope: EnvelopeRegister {
                    initial_volume: 0,
                    direction: Direction::Increase,
                    step_size: 0,
                },
                shift_clock_frequency: 0,
                regularity: Regularity::Irregular,
                dividing_ratio: 0,
                restart_sound: false,
                use_sound_length: false,
            }),
    {
        NoiseChannel {
            sound_length: 0,
            envelope: EnvelopeRegister::new(),
            shift_clock_frequency: 0,
            regularity: Regularity::Irregular,
            dividing_ratio: 0,
            restart_sound: false,
            use_sound_length: false,
        }
    }

    pub fn read(&self, reladdr: u8) -> (r: u8)
        requires
            Self::has_register(reladdr),
        ensures
            r == self.spec_read(reladdr),
    {
        if reladdr == 1 {
            self.sound_length
        } else if reladdr == 2 {
            self.envelope.into_byte()
        } else if reladdr == 3 {
            let mut out: u8 = self.shift_clock_frequency << 4;
            match self.regularity {
                Regularity::Regular => {
                    out.set_bit(3, true);
                },
                Regularity::Irregular => {},
            }
            out = out | self.dividing_ratio;
            out
        } else {
            let mut out: u8 = 0;
            out.set_bit(6, self.use_sound_length);
            out.set_bit(7, self.restart_sound);
            out
        }
    }

    pub fn write(&mut self, reladdr: u8, val: u8)
        requires
            Self::has_register(reladdr),
        ensures
            *final(self) == old(self).spec_write(reladdr, val),
    {
        if reladdr == 1 {
            self.sound_length = val;
        } else if reladdr == 2 {
            self.envelope = EnvelopeRegister::from_byte(val);
        } else if reladdr == 3 {
            self.shift_clock_frequency = (val >> 4) & 0b1111;
            self.regularity = if val.get_bit(3) {
                Regularity::Regular
            } else {
                Regularity::Irregular
            };
            self.dividing_ratio = val & 0b111;
        } else {
            self.use_sound_length = val.get_bit(6);
            self.restart_sound = val.get_bit(7);
        }
    }
}

/// The bits of a written byte that the register at the relative address
/// keeps: the envelope has no bit 7, the last register bits 6 and 7 only.
pub open spec fn noise_mask(reladdr: u8) -> u8 {
    if reladdr == 2 {
        0x7F
    } else if reladdr == 4 {
        0xC0
    } else {
        0xFF
    }
}

/// A register reads back the byte written to it, less the bits it does not
/// keep, and a write to one register leaves what the others read as.
pub proof fn lemma_noise_write_read(channel: NoiseChannel, reladdr: u8, val: u8, other: u8)
    requires
        NoiseChannel::has_register(reladdr),
        NoiseChannel::has_register(other),
    ensures
        channel.spec_write(reladdr, val).spec_read(reladdr) == val & noise_mask(reladdr),
        other != reladdr ==> channel.spec_write(reladdr, val).spec_read(other)
            == channel.spec_read(other),
{
    lemma_envelope_round_trip(val);
    lemma_put_bit(0, val, 6);
    lemma_put_bit((0u8 & !(1u8 << 6u8)) | (val & (1u8 << 6u8)), val, 7);
    assert((val >> 3) & 1 == 1 ==> ((((val >> 4) & 0b1111) << 4) | (1u8 << 3u8)) | (val & 0b111)
        == val) by (bit_vector);
    assert((val >> 3) & 1 != 1 ==> (((val >> 4) & 0b1111) << 4) | (val & 0b111) == val)
        by (bit_vector);
    assert((((0u8 & !(1u8 << 6u8)) | (val & (1u8 << 6u8))) & !(1u8 << 7u8)) | (val & (1u8 << 7u8))
        == val & 0xC0 && val & 0xFF == val) by (bit_vector);
}

} // verus!
