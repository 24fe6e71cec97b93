//! Instruction-processing core of a Game Boy emulator: the register file,
//! the address-space router, the instruction decoder and the execution
//! engine, together with the cartridge image and the sound register bank
//! that sit around them.

pub mod bus;
pub mod cartridge;
pub mod cpu;
pub mod fault;
pub mod gameboy;
pub mod io;
pub mod mmu;
pub mod sound;
pub mod utils;
pub mod z80;

pub use cartridge::Cartridge;
pub use gameboy::Gameboy;
