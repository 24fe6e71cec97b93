//! The wave channel.

use vstd::prelude::*;

use crate::utils::{lemma_put_bit, lemma_set_byte_get_byte, BitOps, WordOps};

verus! {

/// The output level of the wave channel, held in bits 5 and 6 of its byte.
#[derive(Copy, Clone, Debug, PartialEq, Eq, Structural)]
pub enum OutputLevel {
    Muted,
    Full,
    Half,
    Quarter,
}

impl OutputLevel {
    /// The level that a byte unpacks to.
    pub open spec fn unpack(byte: u8) -> OutputLevel {
        let code = (byte >> 5) & 0b11;
        if code == 0 {
            OutputLevel::Muted
        } else if code == 1 {
            OutputLevel::Full
        } else if code == 2 {
            OutputLevel::Half
        } else {
            OutputLevel::Quarter
        }
    }

    /// The byte that the level packs to.
    pub open spec fn pack(self) -> u8 {
        match self {
            OutputLevel::Muted => 0x00,
            OutputLevel::Full => 0x20,
            OutputLevel::Half => 0x40,
            OutputLevel::Quarter => 0x60,
        }
    }

    pub fn from_byte(byte: u8) -> (r: OutputLevel)
        ensures
            r == Self::unpack(byte),
    {
        let code: u8 = (byte >> 5) & 0b11;
        if code == 0 {
            OutputLevel::Muted
        } else if code == 1 {
            OutputLevel::Full
        } else if code == 2 {
            OutputLevel::Half
        } else {
            OutputLevel::Quarter
        }
    }

    pub fn into_byte(self) -> (r: u8)
        ensures
            r == self.pack(),
    {
        match self {
            OutputLevel::Muted => 0x00,
            OutputLevel::Full => 0x20,
            OutputLevel::Half => 0x40,
            OutputLevel::Quarter => 0x60,
        }
    }
}

/// A byte that is unpacked and packed again keeps bits 5 and 6 and nothing
/// else.
pub proof fn lemma_output_level_round_trip(byte: u8)
    ensures
        OutputLevel::unpack(byte).pack() == byte & 0x60,
{
    let code = (byte >> 5) & 0b11;
    assert(code <= 3 && (code == 0 ==> byte & 0x60 == 0x00) && (code == 1 ==> byte & 0x60 == 0x20)
        && (code == 2 ==> byte & 0x60 == 0x40) && (code == 3 ==> byte & 0x60 == 0x60))
        by (bit_vector)
        requires
            code == (byte >> 5) & 0b11,
    ;
}

/// The registers of the wave channel.
#[derive(Copy, Clone, Debug, PartialEq, Eq, Structural)]
pub struct WavChannel {
    pub enabled: bool,
    pub sound_length: u8,
    pub level: OutputLevel,
    pub frequency: u16,
    pub restart_sound: bool,
    pub use_sound_length: bool,
}

impl WavChannel {
    /// The channel has registers at the relative addresses 0 to 4.
    pub open spec fn has_register(reladdr: u8) -> bool {
        reladdr <= 4
    }

    /// The byte that the register at the relative address reads as.
    pub open spec fn spec_read(self, reladdr: u8) -> u8 {
        if reladdr == 0 {
            0u8.with_bit(7, self.enabled)
        } else if reladdr == 1 {
            self.sound_length
        } else if reladdr == 2 {
            self.level.pack()
        } else if reladdr == 3 {
            self.frequency.lower()
        } else {
            self.frequency.upper().with_bit(6, self.use_sound_length).with_bit(
                7,
                self.restart_sound,
            )
        }
    }

    /// The channel after `val` is written to the register at the relative
    /// address.
    pub open spec fn spec_write(self, reladdr: u8, val: u8) -> WavChannel {
        if reladdr == 0 {
            WavChannel { enabled: val.bit(7), ..self }
        } else if reladdr == 1 {
            WavChannel { sound_length: val, ..self }
        } else if reladdr == 2 {
            WavChannel { level: OutputLevel::unpack(val), ..self }
        } else if reladdr == 3 {
            WavChannel { frequency: self.frequency.with_lower(val), ..self }
        } else {
            WavChannel {
                frequency: self.frequency.with_upper(val),
                use_sound_length: val.bit(6),
                restart_sound: val.bit(7),
                ..self
            }
        }
    }

    /// A disabled, muted channel with every register zero.
    pub fn new() -> (r: WavChannel)
        ensures
            r == (WavChannel {
                enabled: false,
                sound_length: 0,
                level: OutputLevel::Muted,
                frequency: 0,
                restart_sound: false,
                use_sound_length: false,
            }),
    {
        WavChannel {
            enabled: false,
            sound_length: 0,
            level: OutputLevel::Muted,
            frequency: 0,
            restart_sound: false,
            use_sound_length: false,
        }
    }

    pub fn read(&self, reladdr: u8) -> (r: u8)
        requires
            Self::has_register(reladdr),
        ensures
            r == self.spec_read(reladdr),
    {
        if reladdr == 0 {
            let mut out: u8 = 0;
            out.set_bit(7, self.enabled);
            out
        } else if reladdr == 1 {
            self.sound_length
        } else if reladdr == 2 {
            self.level.into_byte()
        } else if reladdr == 3 {
            self.frequency.get_lower()
        } else {
            let mut out: u8 = self.frequency.get_upper();
            out.set_bit(6, self.use_sound_length);
            out.set_bit(7, self.restart_sound);
            out
        }
    }

    pub fn write(&mut self, reladdr: u8, val: u8)
        requires
            Self::has_register(reladdr),
        ensures
            *final(self) == old(self).spec_write(reladdr, val),
    {
        if reladdr == 0 {
            self.enabled = val.get_bit(7);
        } else if reladdr == 1 {
            self.sound_length = val;
        } else if reladdr == 2 {
            self.level = OutputLevel::from_byte(val);
        } else if reladdr == 3 {
            self.frequency.set_lower(val);
        } else {
            self.frequency.set_upper(val);
            self.use_sound_length = val.get_bit(6);
            self.restart_sound = val.get_bit(7);
        }
    }
}

/// The bits of a written byte that the register at the relative address
/// keeps: the first register has bit 7 only, the level bits 5 and 6 only.
pub open spec fn wav_mask(reladdr: u8) -> u8 {
    if reladdr == 0 {
        0x80
    } else if reladdr == 2 {
        0x60
    } else {
        0xFF
    }
}

/// A register reads back the byte written to it, less the bits it does not
/// keep, and a write to one register leaves what the others read as.
pub proof fn lemma_wav_write_read(channel: WavChannel, reladdr: u8, val: u8, other: u8)
    requires
        WavChannel::has_register(reladdr),
        WavChannel::has_register(other),
    ensures
        channel.spec_write(reladdr, val).spec_read(reladdr) == val & wav_mask(reladdr),
        other != reladdr ==> channel.spec_write(reladdr, val).spec_read(other)
            == channel.spec_read(other),
{
    lemma_output_level_round_trip(val);
    lemma_set_byte_get_byte(channel.frequency, val);
    lemma_put_bit(0, val, 7);
    lemma_put_bit(val, val, 6);
    lemma_put_bit((val & !(1u8 << 6u8)) | (val & (1u8 << 6u8)), val, 7);
    assert((0u8 & !(1u8 << 7u8)) | (val & (1u8 << 7u8)) == val & 0x80 && val & 0xFF == val)
        by (bit_vector);
    assert((((val & !(1u8 << 6u8)) | (val & (1u8 << 6u8))) & !(1u8 << 7u8)) | (val & (1u8 << 7u8))
        == val) by (bit_vector);
}

} // verus!
