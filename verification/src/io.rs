//! The I/O ports of the machine. Only the sound bank is mapped.

use vstd::prelude::*;

use crate::sound::registers::cell_of;
use crate::sound::SoundRegisters;

verus! {

#[derive(Copy, Clone, Debug)]
pub struct IoPorts {
    pub sound: SoundRegisters,
}

impl IoPorts {
    /// The bank behind the ports is well-formed.
    pub open spec fn wf(self) -> bool {
        self.sound.wf()
    }

    /// Whether anything is mapped at a port.
    pub open spec fn mapped(port: u8) -> bool {
        cell_of(port) is Some
    }

    /// The ports with a silent sound bank behind them.
    pub fn new() -> (r: IoPorts)
        ensures
            r.wf(),
            forall|port: u8| Self::mapped(port) ==> r.sound.spec_read(port) == 0,
    {
        IoPorts { sound: SoundRegisters::new() }
    }

    pub fn read(&self, port: u8) -> (r: u8)
        requires
            self.wf(),
            Self::mapped(port),
        ensures
            r == self.sound.spec_read(port),
    {
        self.sound.read(port)
    }

    pub fn write(&mut self, port: u8, val: u8)
        requires
            old(self).wf(),
            Self::mapped(port),
        ensures
            final(self).wf(),
            final(self).sound == old(self).sound.spec_write(port, val),
    {
        self.sound.write(port, val);
    }

    pub fn sound_registers(&mut self) -> (r: &mut SoundRegisters)
        ensures
            *r == old(self).sound,
            final(self).sound == *final(r),
    {
        &mut self.sound
    }
}

} // verus!
