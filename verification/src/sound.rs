//! The sound register bank: the registers of the four channels and of the
//! two control cells, packed into bytes as the hardware lays them out.

pub mod envelope;
pub mod noise_channel;
pub mod registers;
pub mod tone_channel;
pub mod wav_channel;

pub use registers::SoundRegisters;
