//! A tone channel, with or without a frequency sweep.

use vstd::prelude::*;

use crate::sound::envelope::{lemma_envelope_round_trip, Direction, EnvelopeRegister};
use crate::utils::{lemma_put_bit, lemma_set_byte_get_byte, BitOps, WordOps};

verus! {

#[derive(Copy, Clone, Debug, PartialEq, Eq, Structural)]
pub enum SweepDirection {
    Up,
    Down,
}

/// The frequency sweep: bits 4 to 6 of its byte hold the sweep time, bit 3
/// the direction (set for down), bits 0 to 2 the shift.
#[derive(Copy, Clone, Debug, PartialEq, Eq, Structural)]
pub struct SweepRegister {
    pub sweep_time: u8,
    pub direction: SweepDirection,
    pub sweep_shift: u8,
}

impl SweepRegister {
    /// The sweep that a byte unpacks to.
    pub open spec fn unpack(byte: u8) -> SweepRegister {
        SweepRegister {
            sweep_time: (byte >> 4) & 0b111,
            direction: if (byte >> 3) & 0b1 == 1 {
                SweepDirection::Down
            } else {
                SweepDirection::Up
            },
            sweep_shift: byte & 0b111,
        }
    }

    /// The byte that the sweep packs to.
    pub open spec fn pack(self) -> u8 {
        match self.direction {
            SweepDirection::Down => ((self.sweep_time << 4) | 0x8) | self.sweep_shift,
            SweepDirection::Up => (self.sweep_time << 4) | self.sweep_shift,
        }
    }

    /// The sweep with time and shift zero, upwards.
    pub fn new() -> (r: SweepRegister)
        ensures
            r == (SweepRegister { sweep_time: 0, direction: SweepDirection::Up, sweep_shift: 0 }),
    {
        SweepRegister { sweep_time: 0, direction: SweepDirection::Up, sweep_shift: 0 }
    }

    pub fn from_byte(byte: u8) -> (r: SweepRegister)
        ensures
            r == Self::unpack(byte),
    {
        SweepRegister {
            sweep_time: (byte >> 4) & 0b111,
            direction: if (byte >> 3) & 0b1 == 1 {
                SweepDirection::Down
            } else {
                SweepDirection::Up
            },
            sweep_shift: byte & 0b111,
        }
    }

    pub fn into_byte(self) -> (r: u8)
        ensures
            r == self.pack(),
    {
        let mut out: u8 = self.sweep_time << 4;
        match self.direction {
            SweepDirection::Down => {
                out = out | 0x8;
            },
            SweepDirection::Up => {},
        }
        out = out | self.sweep_shift;
        out
    }
}

/// A byte that is unpacked and packed again keeps its low seven bits.
pub proof fn lemma_sweep_round_trip(byte: u8)
    ensures
        SweepRegister::unpack(byte).pack() == byte & 0x7F,
{
    assert((byte >> 3) & 0b1 == 1 ==> ((((byte >> 4) & 0b111) << 4) | 0x8) | (byte & 0b111) == byte
        & 0x7F) by (bit_vector);
    assert((byte >> 3) & 0b1 != 1 ==> (((byte >> 4) & 0b111) << 4) | (byte & 0b111) == byte & 0x7F)
        by (bit_vector);
}

/// The registers of a tone channel. Register 0 exists only on the channel
/// that has a sweep.
#[derive(Copy, Clone, Debug, PartialEq, Eq, Structural)]
pub struct ToneChannel {
    pub wave_duty: u8,
    pub sound_length: u8,
    pub frequency: u16,
    pub restart_sound: bool,
    pub use_sound_length: bool,
    pub envelope: EnvelopeRegister,
    pub sweep: Option<SweepRegister>,
}

impl ToneChannel {
    /// Whether the channel has a register at the relative address.
    pub open spec fn has_register(self, reladdr: u8) -> bool {
        (reladdr == 0 && self.sweep is Some) || (1 <= reladdr <= 4)
    }

    /// The byte that the register at the relative address reads as.
    pub open spec fn spec_read(self, reladdr: u8) -> u8 {
        if reladdr == 0 {
            self.sweep->Some_0.pack()
        } else if reladdr == 1 {
            (self.wave_duty << 6) | self.sound_length
        } else if reladdr == 2 {
            self.envelope.pack()
        } else if reladdr == 3 {
            self.frequency.lower()
        } else {
            self.frequency.upper().with_bit(6, self.use_sound_length).with_bit(
                7,
                self.restart_sound,
            )
        }
    }

    /// The channel after `val` is written to the register at the relative
    /// address.
    pub open spec fn spec_write(self, reladdr: u8, val: u8) -> ToneChannel {
        if reladdr == 0 {
            ToneChannel { sweep: Some(SweepRegister::unpack(val)), ..self }
        } else if reladdr == 1 {
            ToneChannel { wave_duty: val >> 6, sound_length: val & 0b1_1111, ..self }
        } else if reladdr == 2 {
            ToneChannel { envelope: EnvelopeRegister::unpack(val), ..self }
        } else if reladdr == 3 {
            ToneChannel { frequency: self.frequency.with_lower(val), ..self }
        } else {
            ToneChannel {
                frequency: self.frequency.with_upper(val),
                use_sound_length: val.bit(6),
                restart_sound: val.bit(7),
                ..self
            }
        }
    }

    /// A silent channel with every register zero.
    pub fn new(with_sweep: bool) -> (r: ToneChannel)
        ensures
            r == (ToneChannel {
                wave_duty: 0,
                sound_length: 0,
                frequency: 0,
                restart_sound: false,
                use_sound_length: false,
                envelope: EnvelopeRegister {
                    initial_volume: 0,
                    direction: Direction::Increase,
                    step_size: 0,
                },
                sweep: if with_sweep {
                    Some(
                        SweepRegister {
                            sweep_time: 0,
                            direction: SweepDirection::Up,
                            sweep_shift: 0,
                        },
                    )
                } else {
                    None
                },
            }),
    {
        let sweep = if with_sweep {
            Some(SweepRegister::new())
        } else {
            None
        };
        ToneChannel {
            wave_duty: 0,
            sound_length: 0,
            frequency: 0,
            restart_sound: false,
            use_sound_length: false,
            envelope: EnvelopeRegister::new(),
            sweep,
        }
    }

    pub fn read(&self, reladdr: u8) -> (r: u8)
        requires
            self.has_register(reladdr),
        ensures
            r == self.spec_read(reladdr),
    {
        if reladdr == 0 {
            match self.sweep {
                Some(sweep) => sweep.into_byte(),
                None => 0,
            }
        } else if reladdr == 1 {
            (self.wave_duty << 6) | self.sound_length
        } else if reladdr == 2 {
            self.envelope.into_byte()
        } else if reladdr == 3 {
            self.frequency.get_lower()
        } else {
            let mut out: u8 = self.frequency.get_upper();
            out.set_bit(6, self.use_sound_length);
            out.set_bit(7, self.restart_sound);
            out
        }
    }

    pub fn write(&mut self, reladdr: u8, val: u8)
        requires
            old(self).has_register(reladdr),
        ensures
            *final(self) == old(self).spec_write(reladdr, val),
    {
        if reladdr == 0 {
            self.sweep = Some(SweepRegister::from_byte(val));
        } else if reladdr == 1 {
            self.wave_duty = val >> 6;
            self.sound_length = val & 0b1_1111;
        } else if reladdr == 2 {
            self.envelope = EnvelopeRegister::from_byte(val);
        } else if reladdr == 3 {
            self.frequency.set_lower(val);
        } else {
            self.frequency.set_upper(val);
            self.use_sound_length = val.get_bit(6);
            self.restart_sound = val.get_bit(7);
        }
    }
}

/// The bits of a written byte that the register at the relative address
/// keeps: the sweep and the envelope have no bit 7, and the second register
/// has no bit 5.
pub open spec fn tone_mask(reladdr: u8) -> u8 {
    if reladdr == 0 || reladdr == 2 {
        0x7F
    } else if reladdr == 1 {
        0xDF
    } else {
        0xFF
    }
}

/// A register reads back the byte written to it, less the bits it does not
/// keep, and a write to one register leaves what the others read as.
pub proof fn lemma_tone_write_read(channel: ToneChannel, reladdr: u8, val: u8, other: u8)
    requires
        channel.has_register(reladdr),
        channel.has_register(other),
    ensures
        channel.spec_write(reladdr, val).has_register(other),
        channel.spec_write(reladdr, val).spec_read(reladdr) == val & tone_mask(reladdr),
        other != reladdr ==> channel.spec_write(reladdr, val).spec_read(other)
            == channel.spec_read(other),
{
    lemma_sweep_round_trip(val);
    lemma_envelope_round_trip(val);
    lemma_set_byte_get_byte(channel.frequency, val);
    lemma_put_bit(val, val, 6);
    lemma_put_bit((val & !(1u8 << 6u8)) | (val & (1u8 << 6u8)), val, 7);
    assert(((val >> 6) << 6) | (val & 0b1_1111) == val & 0xDF && val & 0xFF == val) by (bit_vector);
    assert((((val & !(1u8 << 6u8)) | (val & (1u8 << 6u8))) & !(1u8 << 7u8)) | (val & (1u8 << 7u8))
        == val) by (bit_vector);
}

} // verus!
