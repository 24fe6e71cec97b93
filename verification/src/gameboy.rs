//! The whole machine: a processor and the address space it runs on.

use vstd::prelude::*;

use crate::cartridge::Cartridge;
use crate::cpu::{machine, transition, Cpu, Machine};
use crate::fault::Fault;
use crate::mmu::{MemoryView, MMU};
use crate::z80::registers::RegisterState;

verus! {

pub struct Gameboy {
    mmu: MMU,
    cpu: Cpu,
}

impl View for Gameboy {
    type V = Machine;

    closed spec fn view(&self) -> Machine {
        machine(&self.cpu, &self.mmu)
    }
}

impl Gameboy {
    /// The sizes of the memory regions are as the address map fixes them.
    pub open spec fn wf(&self) -> bool {
        self@.mem.wf()
    }

    /// A machine in the power-on state, with the given cartridge behind the
    /// given boot image and with zeroed RAM.
    pub fn new(cart: Cartridge, bootrom: [u8; 256]) -> (r: Gameboy)
        ensures
            r.wf(),
            r@ == (Machine {
                regs: RegisterState::boot(),
                mem: MemoryView {
                    boot: bootrom@,
                    rom: cart@.data,
                    vram: Seq::new(0x2000, |i: int| 0u8),
                    wram: Seq::new(0x2000, |i: int| 0u8),
                },
            }),
    {
        Gameboy { mmu: MMU::new(cart, bootrom), cpu: Cpu::new() }
    }

    /// Performs one instruction. A fault leaves the machine as it was.
    pub fn tick(&mut self) -> (r: Result<(), Fault>)
        requires
            old(self).wf(),
        ensures
            final(self).wf(),
            transition(old(self)@.step(), old(self)@, final(self)@, r),
    {
        self.cpu.tick(&mut self.mmu)
    }

    /// The processor of the machine.
    pub fn cpu(&self) -> (r: &Cpu)
        ensures
            r@ == self@.regs,
    {
        &self.cpu
    }

    /// The address space of the machine.
    pub fn mmu(&self) -> (r: &MMU)
        ensures
            r@ == self@.mem,
            r.wf() == self.wf(),
    {
        &self.mmu
    }
}

} // verus!
