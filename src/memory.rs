//! The address space of a cartridge under test: ROM bank 0, work RAM and high RAM.

use crate::bus;
use vstd::prelude::*;

verus! {

/// The memory that a test runs against.
///
/// ROM is read-only (bank switching is not emulated); work RAM (0xC000 to 0xDFFF)
/// and high RAM (0xFF80 to 0xFFFE) can be written. Every other address reads as
/// 0xFF and ignores writes. VRAM, cartridge RAM and OAM are kept for dumps only:
/// no PPU or cartridge is simulated.
#[derive(Clone)]
pub struct AddressSpace {
    pub rom: Vec<u8>,
    pub vram: [u8; 0x2000],
    pub sram: [u8; 0x2000],
    pub wram: [u8; 0x2000],
    pub oam: [u8; 0x100],
    pub hram: [u8; 0x7F],
}

/// Work RAM starts here.
pub const WRAM_START: u16 = 0xC000;

/// High RAM starts here; it ends just before the interrupt-enable register.
pub const HRAM_START: u16 = 0xFF80;

/// What a read of an unmapped address returns.
pub const OPEN_BUS: u8 = 0xFF;

/// The addresses that hold RAM: work RAM and high RAM.
pub open spec fn ram() -> Set<u16> {
    Set::new(|a: u16| (WRAM_START <= a < 0xE000) || (HRAM_START <= a < 0xFFFF))
}

/// What a fresh address space over `rom` reads: the ROM (0xFF past its end) in
/// bank 0, zero in RAM, and 0xFF elsewhere.
pub open spec fn fresh_contents(rom: Seq<u8>) -> Map<u16, u8> {
    Map::new(
        |a: u16| true,
        |a: u16|
            if a < 0x4000 {
                if (a as int) < rom.len() {
                    rom[a as int]
                } else {
                    OPEN_BUS
                }
            } else if ram().contains(a) {
                0
            } else {
                OPEN_BUS
            },
    )
}

impl AddressSpace {
    /// The byte that a read of `address` returns.
    pub open spec fn byte_at(&self, address: u16) -> u8 {
        if address < 0x4000 {
            if (address as int) < self.rom.len() {
                self.rom@[address as int]
            } else {
                OPEN_BUS
            }
        } else if WRAM_START <= address < 0xE000 {
            self.wram[address - WRAM_START]
        } else if HRAM_START <= address < 0xFFFF {
            self.hram[address - HRAM_START]
        } else {
            OPEN_BUS
        }
    }

    /// A fresh address space over a ROM image, with all RAM cleared.
    #[must_use]
    pub fn with(rom: &Vec<u8>) -> (r: AddressSpace)
        ensures
            r.rom@ == rom@,
            forall|i: int| 0 <= i < 0x2000 ==> r.wram[i] == 0,
            forall|i: int| 0 <= i < 0x7F ==> r.hram[i] == 0,
            bus::AddressSpace::contents(&r) == fresh_contents(rom@),
            bus::AddressSpace::writable(&r) == ram(),
    {
        let mut copy: Vec<u8> = Vec::new();
        let mut i: usize = 0;
        while i < rom.len()
            invariant
                i <= rom.len(),
                copy@ == rom@.subrange(0, i as int),
            decreases rom.len() - i,
        {
            copy.push(rom[i]);
            i += 1;
        }
        proof {
            assert(copy@ =~= rom@);
        }
        let r = AddressSpace {
            rom: copy,
            vram: [0; 0x2000],
            sram: [0; 0x2000],
            wram: [0; 0x2000],
            oam: [0; 0x100],
            hram: [0; 0x7F],
        };
        proof {
            assert(bus::AddressSpace::contents(&r) =~= fresh_contents(rom@));
            assert(bus::AddressSpace::writable(&r) =~= ram());
        }
        r
    }
}

impl bus::AddressSpace for AddressSpace {
    open spec fn contents(&self) -> Map<u16, u8> {
        Map::new(|a: u16| true, |a: u16| self.byte_at(a))
    }

    open spec fn writable(&self) -> Set<u16> {
        ram()
    }

    fn read(&self, address: u16) -> (r: u8) {
        if address < 0x4000 {
            if (address as usize) < self.rom.len() {
                self.rom[address as usize]
            } else {
                OPEN_BUS
            }
        } else if WRAM_START <= address && address < 0xE000 {
            self.wram[(address - WRAM_START) as usize]
        } else if HRAM_START <= address && address < 0xFFFF {
            self.hram[(address - HRAM_START) as usize]
        } else {
            OPEN_BUS
        }
    }

    fn write(&mut self, address: u16, value: u8) {
        if WRAM_START <= address && address < 0xE000 {
            self.wram[(address - WRAM_START) as usize] = value;
        } else if HRAM_START <= address && address < 0xFFFF {
            self.hram[(address - HRAM_START) as usize] = value;
        }
        proof {
            assert(final(self).contents() =~= (if ram().contains(address) {
                old(self).contents().insert(address, value)
            } else {
                old(self).contents()
            }));
        }
    }
}

} // verus!
