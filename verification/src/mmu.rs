//! The address-space router: it maps a 16-bit address to the region that
//! backs it and reads and writes bytes and little-endian words there.

use vstd::prelude::*;

use crate::cartridge::Cartridge;
use crate::fault::{Access, Fault};

verus! {

pub const BOOTROM_START: u16 = 0x0000;

pub const BOOTROM_END: u16 = 0x0100;

pub const CARTRIDGE_ROM_START: u16 = 0x0000;

pub const CARTRIDGE_ROM_END: u16 = 0x4000;

pub const VRAM_START: u16 = 0x8000;

pub const VRAM_END: u16 = 0xA000;

pub const WRAM_START: u16 = 0xC000;

pub const WRAM_END: u16 = 0xE000;

/// The mathematical value of the address space: the bytes of each region.
pub struct MemoryView {
    pub boot: Seq<u8>,
    pub rom: Seq<u8>,
    pub vram: Seq<u8>,
    pub wram: Seq<u8>,
}

impl MemoryView {
    /// The boot overlay and the two RAM regions have their fixed sizes. The
    /// cartridge may hold any number of bytes.
    pub open spec fn wf(self) -> bool {
        &&& self.boot.len() == 0x100
        &&& self.vram.len() == 0x2000
        &&& self.wram.len() == 0x2000
    }

    /// Whether a read of `addr` finds a byte. The boot overlay is always
    /// mapped; behind it the cartridge window shows the cartridge's bytes as
    /// far as the cartridge has any.
    pub open spec fn readable(self, addr: u16) -> bool {
        ||| addr < 0x0100
        ||| (addr < 0x4000 && addr < self.rom.len())
        ||| 0x8000 <= addr < 0xA000
        ||| 0xC000 <= addr < 0xE000
    }

    /// Whether a write of `addr` finds a cell: only the two RAM regions.
    pub open spec fn writable(self, addr: u16) -> bool {
        ||| 0x8000 <= addr < 0xA000
        ||| 0xC000 <= addr < 0xE000
    }

    /// The byte that a readable address shows.
    pub open spec fn byte_at(self, addr: u16) -> u8 {
        if addr < 0x0100 {
            self.boot[addr as int]
        } else if addr < 0x4000 {
            self.rom[addr as int]
        } else if addr < 0xA000 {
            self.vram[addr - 0x8000]
        } else {
            self.wram[addr - 0xC000]
        }
    }

    /// The address space with `val` stored in the cell of a writable address.
    pub open spec fn store(self, addr: u16, val: u8) -> MemoryView {
        if addr < 0xA000 {
            MemoryView { vram: self.vram.update(addr - 0x8000, val), ..self }
        } else {
            MemoryView { wram: self.wram.update(addr - 0xC000, val), ..self }
        }
    }

    pub open spec fn read8(self, addr: u16) -> Result<u8, Fault> {
        if self.readable(addr) {
            Ok(self.byte_at(addr))
        } else {
            Err(Fault::Address { addr, access: Access::Read })
        }
    }

    pub open spec fn write8(self, addr: u16, val: u8) -> Result<MemoryView, Fault> {
        if self.writable(addr) {
            Ok(self.store(addr, val))
        } else {
            Err(Fault::Address { addr, access: Access::Write })
        }
    }

    /// A word is read low byte first; the fault is that of the first byte
    /// that cannot be read.
    pub open spec fn read16(self, addr: u16) -> Result<u16, Fault> {
        if !self.readable(addr) {
            Err(Fault::Address { addr, access: Access::Read })
        } else if !self.readable((addr + 1) as u16) {
            Err(Fault::Address { addr: (addr + 1) as u16, access: Access::Read })
        } else {
            Ok((self.byte_at((addr + 1) as u16) * 256 + self.byte_at(addr)) as u16)
        }
    }

    /// A word is written low byte first; the fault is that of the first byte
    /// that cannot be written, and then neither byte is written.
    pub open spec fn write16(self, addr: u16, val: u16) -> Result<MemoryView, Fault> {
        if !self.writable(addr) {
            Err(Fault::Address { addr, access: Access::Write })
        } else if !self.writable((addr + 1) as u16) {
            Err(Fault::Address { addr: (addr + 1) as u16, access: Access::Write })
        } else {
            Ok(self.store(addr, (val % 256) as u8).store((addr + 1) as u16, (val / 256) as u8))
        }
    }
}

pub struct MMU {
    cart: Cartridge,
    bootrom: Vec<u8>,
    wram: Vec<u8>,
    vram: Vec<u8>,
}

impl View for MMU {
    type V = MemoryView;

    closed spec fn view(&self) -> MemoryView {
        MemoryView {
            boot: self.bootrom@,
            rom: self.cart@.data,
            vram: self.vram@,
            wram: self.wram@,
        }
    }
}

/// A vector of `n` zero bytes.
pub fn zeroed(n: usize) -> (r: Vec<u8>)
    ensures
        r@ == Seq::new(n as nat, |i: int| 0u8),
{
    let mut v: Vec<u8> = Vec::new();
    let mut i: usize = 0;
    while i < n
        invariant
            i <= n,
            v@ == Seq::new(i as nat, |j: int| 0u8),
        decreases n - i,
    {
        v.push(0);
        i = i + 1;
        assert(v@ =~= Seq::new(i as nat, |j: int| 0u8));
    }
    v
}

proof fn lemma_word_bits(lo: u8, hi: u8, val: u16)
    by (bit_vector)
    ensures
        (lo as u16) + ((hi as u16) << 8) == hi * 256 + lo,
        (val & 0xFF) as u8 == val % 256,
        (val >> 8) as u8 == val / 256,
{
}

impl MMU {
    /// The sizes of the regions are as the address map fixes them.
    pub open spec fn wf(&self) -> bool {
        self@.wf()
    }

    /// An address space with the given cartridge behind the boot overlay and
    /// with both RAM regions zeroed.
    pub fn new(cart: Cartridge, bootrom: [u8; 256]) -> (r: MMU)
        ensures
            r.wf(),
            r@ == (MemoryView {
                boot: bootrom@,
                rom: cart@.data,
                vram: Seq::new(0x2000, |i: int| 0u8),
                wram: Seq::new(0x2000, |i: int| 0u8),
            }),
    {
        let mut boot: Vec<u8> = Vec::new();
        let mut i: usize = 0;
        while i < 256
            invariant
                i <= 256,
                boot@ == bootrom@.take(i as int),
            decreases 256 - i,
        {
            boot.push(bootrom[i]);
            i = i + 1;
            assert(boot@ =~= bootrom@.take(i as int));
        }
        assert(boot@ =~= bootrom@);
        MMU {
            cart,
            bootrom: boot,
            wram: zeroed((WRAM_END - WRAM_START) as usize),
            vram: zeroed((VRAM_END - VRAM_START) as usize),
        }
    }

    pub fn read8(&self, addr: u16) -> (r: Result<u8, Fault>)
        requires
            self.wf(),
        ensures
            r == self@.read8(addr),
    {
        if BOOTROM_START <= addr && addr < BOOTROM_END {
            Ok(self.bootrom[(addr - BOOTROM_START) as usize])
        } else if CARTRIDGE_ROM_START <= addr && addr < CARTRIDGE_ROM_END && ((addr
            - CARTRIDGE_ROM_START) as usize) < self.cart.len() {
            Ok(self.cart.read8(addr - CARTRIDGE_ROM_START))
        } else if VRAM_START <= addr && addr < VRAM_END {
            Ok(self.vram[(addr - VRAM_START) as usize])
        } else if WRAM_START <= addr && addr < WRAM_END {
            Ok(self.wram[(addr - WRAM_START) as usize])
        } else {
            Err(Fault::Address { addr, access: Access::Read })
        }
    }

    pub fn write8(&mut self, addr: u16, val: u8) -> (r: Result<(), Fault>)
        requires
            old(self).wf(),
        ensures
            final(self).wf(),
            match old(self)@.write8(addr, val) {
                Ok(mem) => r is Ok && final(self)@ == mem,
                Err(fault) => r == Err::<(), Fault>(fault) && final(self)@ == old(self)@,
            },
    {
        if VRAM_START <= addr && addr < VRAM_END {
            self.vram.set((addr - VRAM_START) as usize, val);
            Ok(())
        } else if WRAM_START <= addr && addr < WRAM_END {
            self.wram.set((addr - WRAM_START) as usize, val);
            Ok(())
        } else {
            Err(Fault::Address { addr, access: Access::Write })
        }
    }

    pub fn read16(&self, addr: u16) -> (r: Result<u16, Fault>)
        requires
            self.wf(),
        ensures
            r == self@.read16(addr),
    {
        let lo: u8 = match self.read8(addr) {
            Ok(lo) => lo,
            Err(fault) => {
                return Err(fault);
            },
        };
        let hi: u8 = match self.read8(addr + 1) {
            Ok(hi) => hi,
            Err(fault) => {
                return Err(fault);
            },
        };
        proof {
            lemma_word_bits(lo, hi, 0);
        }
        Ok((lo as u16) + ((hi as u16) << 8))
    }

    pub fn write16(&mut self, addr: u16, val: u16) -> (r: Result<(), Fault>)
        requires
            old(self).wf(),
        ensures
            final(self).wf(),
            match old(self)@.write16(addr, val) {
                Ok(mem) => r is Ok && final(self)@ == mem,
                Err(fault) => r == Err::<(), Fault>(fault) && final(self)@ == old(self)@,
            },
    {
        proof {
            lemma_word_bits(0, 0, val);
        }
        if !Self::is_ram(addr) {
            return Err(Fault::Address { addr, access: Access::Write });
        }
        if !Self::is_ram(addr + 1) {
            return Err(Fault::Address { addr: addr + 1, access: Access::Write });
        }
        let first = self.write8(addr, (val & 0xFF) as u8);
        let second = self.write8(addr + 1, (val >> 8) as u8);
        Ok(())
    }

    /// Whether `addr` lies in one of the two RAM regions.
    fn is_ram(addr: u16) -> (r: bool)
        ensures
            r == (0x8000 <= addr < 0xA000 || 0xC000 <= addr < 0xE000),
    {
        (VRAM_START <= addr && addr < VRAM_END) || (WRAM_START <= addr && addr < WRAM_END)
    }
}

/// A byte that was written reads back, the regions keep their sizes, and
/// every other address reads as before.
pub proof fn lemma_write8_read8(mem: MemoryView, addr: u16, val: u8)
    requires
        mem.wf(),
        mem.write8(addr, val) is Ok,
    ensures
        mem.write8(addr, val)->Ok_0.wf(),
        mem.write8(addr, val)->Ok_0.read8(addr) == Ok::<u8, Fault>(val),
        forall|other: u16|
            other != addr ==> mem.write8(addr, val)->Ok_0.read8(other) == mem.read8(other),
{
}

/// A word that was written reads back, the regions keep their sizes, and
/// every address but the two written reads as before.
pub proof fn lemma_write16_read16(mem: MemoryView, addr: u16, val: u16)
    requires
        mem.wf(),
        mem.write16(addr, val) is Ok,
    ensures
        mem.write16(addr, val)->Ok_0.wf(),
        mem.write16(addr, val)->Ok_0.read16(addr) == Ok::<u16, Fault>(val),
        mem.write16(addr, val)->Ok_0.read8(addr) == Ok::<u8, Fault>((val % 256) as u8),
        mem.write16(addr, val)->Ok_0.read8((addr + 1) as u16) == Ok::<u8, Fault>((val / 256) as u8),
        forall|other: u16|
            other != addr && other != addr + 1 ==> mem.write16(addr, val)->Ok_0.read8(other)
                == mem.read8(other),
{
}

/// A word access is the two byte accesses at `addr` and `addr + 1`, low
/// byte first.
pub proof fn lemma_word_is_two_bytes(mem: MemoryView, addr: u16, val: u16)
    requires
        mem.wf(),
    ensures
        mem.read16(addr) == match mem.read8(addr) {
            Err(fault) => Err::<u16, Fault>(fault),
            Ok(lo) => match mem.read8((addr + 1) as u16) {
                Err(fault) => Err(fault),
                Ok(hi) => Ok((hi * 256 + lo) as u16),
            },
        },
        mem.write16(addr, val) is Ok ==> mem.write16(addr, val) == match mem.write8(
            addr,
            (val % 256) as u8,
        ) {
            Err(fault) => Err::<MemoryView, Fault>(fault),
            Ok(first) => first.write8((addr + 1) as u16, (val / 256) as u8),
        },
{
}

/// An access succeeds exactly inside a region: the first and the last
/// address of every region can be read, and the RAM regions written; the
/// address behind the cartridge window and behind each RAM region faults,
/// as does any write below the RAM regions. The cartridge window reaches
/// its last address only with a cartridge of at least 0x4000 bytes.
pub proof fn lemma_region_bounds(mem: MemoryView, val: u8)
    requires
        mem.wf(),
    ensures
        forall|addr: u16| mem.read8(addr) is Ok <==> mem.readable(addr),
        forall|addr: u16|
            !mem.readable(addr) ==> mem.read8(addr) == Err::<u8, Fault>(
                Fault::Address { addr, access: Access::Read },
            ),
        forall|addr: u16| mem.write8(addr, val) is Ok <==> mem.writable(addr),
        forall|addr: u16|
            !mem.writable(addr) ==> mem.write8(addr, val) == Err::<MemoryView, Fault>(
                Fault::Address { addr, access: Access::Write },
            ),
        mem.readable(0x0000) && mem.readable(0x00FF),
        mem.rom.len() >= 0x4000 ==> mem.readable(0x0100) && mem.readable(0x3FFF),
        !mem.readable(0x4000),
        mem.readable(0x8000) && mem.readable(0x9FFF) && !mem.readable(0xA000),
        mem.readable(0xC000) && mem.readable(0xDFFF) && !mem.readable(0xE000),
        !mem.writable(0x0000) && !mem.writable(0x3FFF) && !mem.writable(0x7FFF),
        mem.writable(0x8000) && mem.writable(0x9FFF) && !mem.writable(0xA000),
        mem.writable(0xC000) && mem.writable(0xDFFF) && !mem.writable(0xE000),
{
}

} // verus!
