//! The whole bank: four channels, the master switch and the output control,
//! addressed by I/O port.

use vstd::prelude::*;

use crate::sound::noise_channel::{lemma_noise_write_read, noise_mask, NoiseChannel};
use crate::sound::tone_channel::{lemma_tone_write_read, tone_mask, ToneChannel};
use crate::sound::wav_channel::{lemma_wav_write_read, wav_mask, WavChannel};
use crate::utils::{lemma_put_bit, BitOps};

verus! {

/// The master switch and the four channel status bits.
#[derive(Copy, Clone, Debug)]
pub struct SoundEnable {
    pub sound_enabled: bool,
    pub channel_on: (bool, bool, bool, bool),
}

impl SoundEnable {
    /// Bit 7 shows the master switch, bits 0 to 3 the four channels.
    pub open spec fn spec_read(self) -> u8 {
        0u8.with_bit(0, self.channel_on.0).with_bit(1, self.channel_on.1).with_bit(
            2,
            self.channel_on.2,
        ).with_bit(3, self.channel_on.3).with_bit(7, self.sound_enabled)
    }

    /// A write turns the master switch on exactly when bit 7 of the byte is
    /// clear. The channel bits cannot be written.
    pub open spec fn spec_write(self, val: u8) -> SoundEnable {
        SoundEnable { sound_enabled: (val >> 7) == 0, ..self }
    }

    /// Everything off.
    pub fn new() -> (r: SoundEnable)
        ensures
            r == (SoundEnable { sound_enabled: false, channel_on: (false, false, false, false) }),
    {
        SoundEnable { sound_enabled: false, channel_on: (false, false, false, false) }
    }

    pub fn read(&self) -> (r: u8)
        ensures
            r == self.spec_read(),
    {
        let mut out: u8 = 0;
        out.set_bit(0, self.channel_on.0);
        out.set_bit(1, self.channel_on.1);
        out.set_bit(2, self.channel_on.2);
        out.set_bit(3, self.channel_on.3);
        out.set_bit(7, self.sound_enabled);
        out
    }

    pub fn write(&mut self, val: u8)
        ensures
            *final(self) == old(self).spec_write(val),
    {
        self.sound_enabled = (val >> 7) == 0;
    }
}

/// The volume of the two outputs, and which channels feed each of them.
#[derive(Copy, Clone, Debug)]
pub struct ChannelControl {
    pub so1_volume: u8,
    pub so2_volume: u8,
    pub output_to_so1: (bool, bool, bool, bool),
    pub output_to_so2: (bool, bool, bool, bool),
    pub output_vin_to_so1: bool,
    pub output_vin_to_so2: bool,
}

impl ChannelControl {
    /// The control has registers at the relative addresses 0 and 1.
    pub open spec fn has_register(reladdr: u8) -> bool {
        reladdr <= 1
    }

    /// Register 0 holds the two volumes in bits 0 to 2 and 4 to 6 and the
    /// two external-input switches in bits 3 and 7. Register 1 holds the
    /// channel switches of the first output in bits 0 to 3 and those of the
    /// second in bits 4 to 7.
    pub open spec fn spec_read(self, reladdr: u8) -> u8 {
        if reladdr == 0 {
            ((self.so2_volume << 4) | self.so1_volume).with_bit(3, self.output_vin_to_so1).with_bit(
                7,
                self.output_vin_to_so2,
            )
        } else {
            0u8.with_bit(0, self.output_to_so1.0).with_bit(1, self.output_to_so1.1).with_bit(
                2,
                self.output_to_so1.2,
            ).with_bit(3, self.output_to_so1.3).with_bit(4, self.output_to_so2.0).with_bit(
                5,
                self.output_to_so2.1,
            ).with_bit(6, self.output_to_so2.2).with_bit(7, self.output_to_so2.3)
        }
    }

    /// The control after `val` is written to the register at the relative
    /// address.
    pub open spec fn spec_write(self, reladdr: u8, val: u8) -> ChannelControl {
        if reladdr == 0 {
            ChannelControl {
                so1_volume: val & 0b111,
                so2_volume: (val >> 4) & 0b111,
                output_vin_to_so1: val.bit(3),
                output_vin_to_so2: val.bit(7),
                ..self
            }
        } else {
            ChannelControl {
                output_to_so1: (val.bit(0), val.bit(1), val.bit(2), val.bit(3)),
                output_to_so2: (val.bit(4), val.bit(5), val.bit(6), val.bit(7)),
                ..self
            }
        }
    }

    /// Both volumes zero and every switch off.
    pub fn new() -> (r: ChannelControl)
        ensures
            r == (ChannelControl {
                so1_volume: 0,
                so2_volume: 0,
                output_to_so1: (false, false, false, false),
                output_to_so2: (false, false, false, false),
                output_vin_to_so1: false,
                output_vin_to_so2: false,
            }),
    {
        ChannelControl {
            so1_volume: 0,
            so2_volume: 0,
            output_to_so1: (false, false, false, false),
            output_to_so2: (false, false, false, false),
            output_vin_to_so1: false,
            output_vin_to_so2: false,
        }
    }

    pub fn read(&self, reladdr: u8) -> (r: u8)
        requires
            Self::has_register(reladdr),
        ensures
            r == self.spec_read(reladdr),
    {
        if reladdr == 0 {
            let mut out: u8 = (self.so2_volume << 4) | self.so1_volume;
            out.set_bit(3, self.output_vin_to_so1);
            out.set_bit(7, self.output_vin_to_so2);
            out
        } else {
            let mut out: u8 = 0;
            out.set_bit(0, self.output_to_so1.0);
            out.set_bit(1, self.output_to_so1.1);
            out.set_bit(2, self.output_to_so1.2);
            out.set_bit(3, self.output_to_so1.3);
            out.set_bit(4, self.output_to_so2.0);
            out.set_bit(5, self.output_to_so2.1);
            out.set_bit(6, self.output_to_so2.2);
            out.set_bit(7, self.output_to_so2.3);
            out
        }
    }

    pub fn write(&mut self, reladdr: u8, val: u8)
        requires
            Self::has_register(reladdr),
        ensures
            *final(self) == old(self).spec_write(reladdr, val),
    {
        if reladdr == 0 {
            self.so1_volume = val & 0b111;
            self.so2_volume = (val >> 4) & 0b111;
            self.output_vin_to_so1 = val.get_bit(3);
            self.output_vin_to_so2 = val.get_bit(7);
        } else {
            self.output_to_so1 = (val.get_bit(0), val.get_bit(1), val.get_bit(2), val.get_bit(3));
            self.output_to_so2 = (val.get_bit(4), val.get_bit(5), val.get_bit(6), val.get_bit(7));
        }
    }
}

/// Both registers of the output control read back the byte written to
/// them in full, and a write to one leaves what the other reads as.
pub proof fn lemma_control_write_read(control: ChannelControl, reladdr: u8, val: u8, other: u8)
    requires
        ChannelControl::has_register(reladdr),
        ChannelControl::has_register(other),
    ensures
        control.spec_write(reladdr, val).spec_read(reladdr) == val,
        other != reladdr ==> control.spec_write(reladdr, val).spec_read(other)
            == control.spec_read(other),
{
    let volumes = (((val >> 4) & 0b111) << 4) | (val & 0b111);
    let with_vin1 = (volumes & !(1u8 << 3u8)) | (val & (1u8 << 3u8));
    lemma_put_bit(volumes, val, 3);
    lemma_put_bit(with_vin1, val, 7);
    assert((with_vin1 & !(1u8 << 7u8)) | (val & (1u8 << 7u8)) == val) by (bit_vector)
        requires
            volumes == (((val >> 4) & 0b111) << 4) | (val & 0b111),
            with_vin1 == (volumes & !(1u8 << 3u8)) | (val & (1u8 << 3u8)),
    ;
    let x1 = (0u8 & !(1u8 << 0u8)) | (val & (1u8 << 0u8));
    let x2 = (x1 & !(1u8 << 1u8)) | (val & (1u8 << 1u8));
    let x3 = (x2 & !(1u8 << 2u8)) | (val & (1u8 << 2u8));
    let x4 = (x3 & !(1u8 << 3u8)) | (val & (1u8 << 3u8));
    let x5 = (x4 & !(1u8 << 4u8)) | (val & (1u8 << 4u8));
    let x6 = (x5 & !(1u8 << 5u8)) | (val & (1u8 << 5u8));
    let x7 = (x6 & !(1u8 << 6u8)) | (val & (1u8 << 6u8));
    lemma_put_bit(0, val, 0);
    lemma_put_bit(x1, val, 1);
    lemma_put_bit(x2, val, 2);
    lemma_put_bit(x3, val, 3);
    lemma_put_bit(x4, val, 4);
    lemma_put_bit(x5, val, 5);
    lemma_put_bit(x6, val, 6);
    lemma_put_bit(x7, val, 7);
    assert((x7 & !(1u8 << 7u8)) | (val & (1u8 << 7u8)) == val) by (bit_vector)
        requires
            x1 == (0u8 & !(1u8 << 0u8)) | (val & (1u8 << 0u8)),
            x2 == (x1 & !(1u8 << 1u8)) | (val & (1u8 << 1u8)),
            x3 == (x2 & !(1u8 << 2u8)) | (val & (1u8 << 2u8)),
            x4 == (x3 & !(1u8 << 3u8)) | (val & (1u8 << 3u8)),
            x5 == (x4 & !(1u8 << 4u8)) | (val & (1u8 << 4u8)),
            x6 == (x5 & !(1u8 << 5u8)) | (val & (1u8 << 5u8)),
            x7 == (x6 & !(1u8 << 6u8)) | (val & (1u8 << 6u8)),
    ;
}

/// Which cell of the bank an I/O port reaches.
#[derive(Copy, Clone, Debug, PartialEq, Eq, Structural)]
pub enum Cell {
    Sweep(u8),
    Tone(u8),
    Wav(u8),
    Noise(u8),
    Control(u8),
    Enable,
}

/// The cell behind a port, with the relative address inside its owner.
/// Ports 0x15, 0x1F and everything outside 0x10 to 0x26 reach nothing.
pub open spec fn cell_of(port: u8) -> Option<Cell> {
    if 0x10 <= port <= 0x14 {
        Some(Cell::Sweep((port - 0x10) as u8))
    } else if 0x16 <= port <= 0x19 {
        Some(Cell::Tone((port - 0x16 + 1) as u8))
    } else if 0x1A <= port <= 0x1E {
        Some(Cell::Wav((port - 0x1A) as u8))
    } else if 0x20 <= port <= 0x23 {
        Some(Cell::Noise((port - 0x20 + 1) as u8))
    } else if 0x24 <= port <= 0x25 {
        Some(Cell::Control((port - 0x24) as u8))
    } else if port == 0x26 {
        Some(Cell::Enable)
    } else {
        None
    }
}

#[derive(Copy, Clone, Debug)]
pub struct SoundRegisters {
    pub sweep_channel: ToneChannel,
    pub tone_channel: ToneChannel,
    pub wav_channel: WavChannel,
    pub noise_channel: NoiseChannel,
    pub sound_enable: SoundEnable,
    pub channel_control: ChannelControl,
}

impl SoundRegisters {
    /// The first tone channel is the one with the sweep.
    pub open spec fn wf(self) -> bool {
        self.sweep_channel.sweep is Some
    }

    /// The byte that a port reads as.
    pub open spec fn spec_read(self, port: u8) -> u8 {
        match cell_of(port) {
            Some(Cell::Sweep(reladdr)) => self.sweep_channel.spec_read(reladdr),
            Some(Cell::Tone(reladdr)) => self.tone_channel.spec_read(reladdr),
            Some(Cell::Wav(reladdr)) => self.wav_channel.spec_read(reladdr),
            Some(Cell::Noise(reladdr)) => self.noise_channel.spec_read(reladdr),
            Some(Cell::Control(reladdr)) => self.channel_control.spec_read(reladdr),
            Some(Cell::Enable) => self.sound_enable.spec_read(),
            None => 0,
        }
    }

    /// The bank after `val` is written to a port.
    pub open spec fn spec_write(self, port: u8, val: u8) -> SoundRegisters {
        match cell_of(port) {
            Some(Cell::Sweep(reladdr)) => SoundRegisters {
                sweep_channel: self.sweep_channel.spec_write(reladdr, val),
                ..self
            },
            Some(Cell::Tone(reladdr)) => SoundRegisters {
                tone_channel: self.tone_channel.spec_write(reladdr, val),
                ..self
            },
            Some(Cell::Wav(reladdr)) => SoundRegisters {
                wav_channel: self.wav_channel.spec_write(reladdr, val),
                ..self
            },
            Some(Cell::Noise(reladdr)) => SoundRegisters {
                noise_channel: self.noise_channel.spec_write(reladdr, val),
                ..self
            },
            Some(Cell::Control(reladdr)) => SoundRegisters {
                channel_control: self.channel_control.spec_write(reladdr, val),
                ..self
            },
            Some(Cell::Enable) => SoundRegisters {
                sound_enable: self.sound_enable.spec_write(val),
                ..self
            },
            None => self,
        }
    }

    /// A silent bank: every register of every channel zero.
    pub fn new() -> (r: SoundRegisters)
        ensures
            r.wf(),
            r.tone_channel.sweep is None,
            forall|port: u8| cell_of(port) is Some ==> r.spec_read(port) == 0,
    {
        let r = SoundRegisters {
            sweep_channel: ToneChannel::new(true),
            tone_channel: ToneChannel::new(false),
            wav_channel: WavChannel::new(),
            noise_channel: NoiseChannel::new(),
            sound_enable: SoundEnable::new(),
            channel_control: ChannelControl::new(),
        };
        proof {
            lemma_zero_bytes();
        }
        r
    }

    pub fn read(&self, port: u8) -> (r: u8)
        requires
            self.wf(),
            cell_of(port) is Some,
        ensures
            r == self.spec_read(port),
    {
        if 0x10 <= port && port <= 0x14 {
            self.sweep_channel.read(port - 0x10)
        } else if 0x16 <= port && port <= 0x19 {
            self.tone_channel.read(port - 0x16 + 1)
        } else if 0x1A <= port && port <= 0x1E {
            self.wav_channel.read(port - 0x1A)
        } else if 0x20 <= port && port <= 0x23 {
            self.noise_channel.read(port - 0x20 + 1)
        } else if 0x24 <= port && port <= 0x25 {
            self.channel_control.read(port - 0x24)
        } else {
            self.sound_enable.read()
        }
    }

    pub fn write(&mut self, port: u8, val: u8)
        requires
            old(self).wf(),
            cell_of(port) is Some,
        ensures
            final(self).wf(),
            *final(self) == old(self).spec_write(port, val),
    {
        if 0x10 <= port && port <= 0x14 {
            self.sweep_channel.write(port - 0x10, val);
        } else if 0x16 <= port && port <= 0x19 {
            self.tone_channel.write(port - 0x16 + 1, val);
        } else if 0x1A <= port && port <= 0x1E {
            self.wav_channel.write(port - 0x1A, val);
        } else if 0x20 <= port && port <= 0x23 {
            self.noise_channel.write(port - 0x20 + 1, val);
        } else if 0x24 <= port && port <= 0x25 {
            self.channel_control.write(port - 0x24, val);
        } else {
            self.sound_enable.write(val);
        }
    }
}

/// The bits of a written byte that the cell behind a port keeps.
pub open spec fn port_mask(port: u8) -> u8 {
    match cell_of(port) {
        Some(Cell::Sweep(reladdr)) => tone_mask(reladdr),
        Some(Cell::Tone(reladdr)) => tone_mask(reladdr),
        Some(Cell::Wav(reladdr)) => wav_mask(reladdr),
        Some(Cell::Noise(reladdr)) => noise_mask(reladdr),
        _ => 0xFF,
    }
}

/// A port other than the master switch reads back the byte written to it,
/// less the bits its cell does not keep; a write to any port leaves what
/// every other port reads as.
pub proof fn lemma_port_write_read(bank: SoundRegisters, port: u8, val: u8, other: u8)
    requires
        bank.wf(),
        cell_of(port) is Some,
        cell_of(other) is Some,
    ensures
        bank.spec_write(port, val).wf(),
        port != 0x26 ==> bank.spec_write(port, val).spec_read(port) == val & port_mask(port),
        other != port ==> bank.spec_write(port, val).spec_read(other) == bank.spec_read(other),
{
    match (cell_of(port), cell_of(other)) {
        (Some(Cell::Sweep(r)), Some(Cell::Sweep(o))) => {
            lemma_tone_write_read(bank.sweep_channel, r, val, o);
        },
        (Some(Cell::Sweep(r)), _) => {
            lemma_tone_write_read(bank.sweep_channel, r, val, r);
        },
        (Some(Cell::Tone(r)), Some(Cell::Tone(o))) => {
            lemma_tone_write_read(bank.tone_channel, r, val, o);
        },
        (Some(Cell::Tone(r)), _) => {
            lemma_tone_write_read(bank.tone_channel, r, val, r);
        },
        (Some(Cell::Wav(r)), Some(Cell::Wav(o))) => {
            lemma_wav_write_read(bank.wav_channel, r, val, o);
        },
        (Some(Cell::Wav(r)), _) => {
            lemma_wav_write_read(bank.wav_channel, r, val, r);
        },
        (Some(Cell::Noise(r)), Some(Cell::Noise(o))) => {
            lemma_noise_write_read(bank.noise_channel, r, val, o);
        },
        (Some(Cell::Noise(r)), _) => {
            lemma_noise_write_read(bank.noise_channel, r, val, r);
        },
        (Some(Cell::Control(r)), Some(Cell::Control(o))) => {
            lemma_control_write_read(bank.channel_control, r, val, o);
        },
        (Some(Cell::Control(r)), _) => {
            lemma_control_write_read(bank.channel_control, r, val, r);
        },
        _ => {},
    }
    assert(val & 0xFF == val) by (bit_vector);
}

/// The bytes that zeroed fields pack to are zero.
proof fn lemma_zero_bytes()
    ensures
        (0u8 << 4) | 0u8 == 0,
        (0u8 << 6) | 0u8 == 0,
        0u8.with_bit(7, false) == 0,
        0u8.with_bit(6, false).with_bit(7, false) == 0,
        ((0u8 << 4) | 0u8).with_bit(3, false).with_bit(7, false) == 0,
        0u8.with_bit(0, false).with_bit(1, false).with_bit(2, false).with_bit(3, false).with_bit(
            7,
            false,
        ) == 0,
        0u8.with_bit(0, false).with_bit(1, false).with_bit(2, false).with_bit(3, false).with_bit(
            4,
            false,
        ).with_bit(5, false).with_bit(6, false).with_bit(7, false) == 0,
{
    assert((0u8 << 4) | 0u8 == 0 && (0u8 << 6) | 0u8 == 0 && 0u8 & !(1u8 << 0u8) == 0 && 0u8 & !(1u8
        << 1u8) == 0 && 0u8 & !(1u8 << 2u8) == 0 && 0u8 & !(1u8 << 3u8) == 0 && 0u8 & !(1u8 << 4u8)
        == 0 && 0u8 & !(1u8 << 5u8) == 0 && 0u8 & !(1u8 << 6u8) == 0 && 0u8 & !(1u8 << 7u8) == 0)
        by (bit_vector);
}

} // verus!
