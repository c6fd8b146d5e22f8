use vstd::prelude::*;

verus! {

pub const BIOS_ADDR: u32 = 0x0000_0000;
pub const WORKING_RAM_ADDR: u32 = 0x0200_0000;
pub const WORKING_IRAM_ADDR: u32 = 0x0300_0000;
pub const IO_REGISTERS_ADDR: u32 = 0x0400_0000;
pub const PALETTE_RAM_ADDR: u32 = 0x0500_0000;
pub const VRAM_ADDR: u32 = 0x0600_0000;
pub const OAM_ADDR: u32 = 0x0700_0000;
pub const CART0_ADDR: u32 = 0x0800_0000;

pub const BIOS_SIZE: usize = 0x000_4000;
pub const WRAM_SIZE: usize = 0x004_0000;
pub const IWRAM_SIZE: usize = 0x000_8000;
pub const IO_REGISTERS_SIZE: usize = 0x000_0400;
pub const PALETTE_RAM_SIZE: usize = 0x000_0400;
pub const VRAM_SIZE: usize = 0x001_8000;
pub const OAM_SIZE: usize = 0x000_0400;
pub const CART0_SIZE: usize = 0x200_0000;

/// The memory bus: one byte array per mapped region. The BIOS and cartridge
/// ROM are read-only through the bus.
pub struct MMU {
    pub bios: Vec<u8>,
    pub wram: Vec<u8>,
    pub iwram: Vec<u8>,
    pub registers: Vec<u8>,
    pub palette: Vec<u8>,
    pub vram: Vec<u8>,
    pub oam: Vec<u8>,
    pub rom: Vec<u8>,
}

/// Addresses a byte store changes: every mapped region but BIOS and ROM.
pub open spec fn writable(addr: u32) -> bool {
    (0x0200_0000 <= addr <= 0x0203_FFFF) || (0x0300_0000 <= addr <= 0x0300_7FFF) || (0x0400_0000
        <= addr <= 0x0400_03FE) || (0x0500_0000 <= addr <= 0x0500_03FF) || (0x0600_0000 <= addr
        <= 0x0601_7FFF) || (0x0700_0000 <= addr <= 0x0700_03FF)
}

/// `after` is `before` with the byte `val` stored at `addr`.
pub open spec fn stored8(before: &MMU, after: &MMU, addr: u32, val: u8) -> bool {
    after.wf() && forall|a: u32|
        #[trigger] after.byte(a) == if a == addr && writable(addr) {
            val
        } else {
            before.byte(a)
        }
}

/// `after` is `before` with the half-word `val` stored at `addr`, high byte first.
pub open spec fn stored16(before: &MMU, after: &MMU, addr: u32, val: u16) -> bool {
    after.wf() && forall|a: u32|
        #[trigger] after.byte(a) == if a == addr.wrapping_add(1) && writable(a) {
            val as u8
        } else if a == addr && writable(a) {
            (val >> 8u16) as u8
        } else {
            before.byte(a)
        }
}

/// `after` is `before` with the word `val` stored at `addr`, highest byte first.
pub open spec fn stored32(before: &MMU, after: &MMU, addr: u32, val: u32) -> bool {
    after.wf() && forall|a: u32|
        #[trigger] after.byte(a) == if a == addr.wrapping_add(3) && writable(a) {
            val as u8
        } else if a == addr.wrapping_add(2) && writable(a) {
            (val >> 8u32) as u8
        } else if a == addr.wrapping_add(1) && writable(a) {
            (val >> 16u32) as u8
        } else if a == addr && writable(a) {
            (val >> 24u32) as u8
        } else {
            before.byte(a)
        }
}

impl MMU {
    pub open spec fn wf(&self) -> bool {
        self.bios@.len() == BIOS_SIZE && self.wram@.len() == WRAM_SIZE && self.iwram@.len()
            == IWRAM_SIZE && self.registers@.len() == IO_REGISTERS_SIZE && self.palette@.len()
            == PALETTE_RAM_SIZE && self.vram@.len() == VRAM_SIZE && self.oam@.len() == OAM_SIZE
            && self.rom@.len() == CART0_SIZE
    }

    /// The byte the bus returns at `addr`; unmapped addresses read 0 and the
    /// cartridge ROM repeats over 0x0800_0000..=0x0DFF_FFFF.
    #[verifier::opaque]
    pub open spec fn byte(&self, addr: u32) -> u8 {
        if addr <= 0x0000_3FFF {
            self.bios@[addr as int]
        } else if 0x0200_0000 <= addr <= 0x0203_FFFF {
            self.wram@[addr - 0x0200_0000]
        } else if 0x0300_0000 <= addr <= 0x0300_7FFF {
            self.iwram@[addr - 0x0300_0000]
        } else if 0x0400_0000 <= addr <= 0x0400_03FE {
            self.registers@[addr - 0x0400_0000]
        } else if 0x0500_0000 <= addr <= 0x0500_03FF {
            self.palette@[addr - 0x0500_0000]
        } else if 0x0600_0000 <= addr <= 0x0601_7FFF {
            self.vram@[addr - 0x0600_0000]
        } else if 0x0700_0000 <= addr <= 0x0700_03FF {
            self.oam@[addr - 0x0700_0000]
        } else if 0x0800_0000 <= addr <= 0x0DFF_FFFF {
            self.rom@[(addr - 0x0800_0000) % (CART0_SIZE as int)]
        } else {
            0
        }
    }

    /// Half-word at `addr`: the byte at `addr` is the high half.
    pub open spec fn half(&self, addr: u32) -> u16 {
        ((self.byte(addr) as u16) << 8u16) | (self.byte(addr.wrapping_add(1)) as u16)
    }

    /// Word at `addr`: the half-word at `addr` is the high half.
    pub open spec fn word(&self, addr: u32) -> u32 {
        ((self.half(addr) as u32) << 16u32) | (self.half(addr.wrapping_add(2)) as u32)
    }

    /// A bus with every byte zero.
    pub fn new() -> (r: MMU)
        ensures
            r.wf(),
            forall|a: u32| #[trigger] r.byte(a) == 0,
    {
        let r = MMU {
            bios: vec![0u8; BIOS_SIZE],
            wram: vec![0u8; WRAM_SIZE],
            iwram: vec![0u8; IWRAM_SIZE],
            registers: vec![0u8; IO_REGISTERS_SIZE],
            palette: vec![0u8; PALETTE_RAM_SIZE],
            vram: vec![0u8; VRAM_SIZE],
            oam: vec![0u8; OAM_SIZE],
            rom: vec![0u8; CART0_SIZE],
        };
        reveal(MMU::byte);
        assert forall|a: u32| #[trigger] r.byte(a) == 0 by {
            if 0x0800_0000 <= a <= 0x0DFF_FFFF {
                assert(0 <= (a - 0x0800_0000) % (CART0_SIZE as int) < CART0_SIZE);
            }
        }
        r
    }

    /// Copies a cartridge image into the ROM region, from its start; bytes past
    /// the region's size are left out.
    pub fn load_rom(&mut self, image: &Vec<u8>)
        requires
            old(self).wf(),
        ensures
            final(self).wf(),
            forall|i: int|
                0 <= i < CART0_SIZE ==> #[trigger] final(self).rom@[i] == if i < image@.len() {
                    image@[i]
                } else {
                    old(self).rom@[i]
                },
            final(self).bios == old(self).bios,
            final(self).wram == old(self).wram,
            final(self).iwram == old(self).iwram,
            final(self).registers == old(self).registers,
            final(self).palette == old(self).palette,
            final(self).vram == old(self).vram,
            final(self).oam == old(self).oam,
    {
        let mut i: usize = 0;
        while i < image.len() && i < CART0_SIZE
            invariant
                self.wf(),
                i <= CART0_SIZE,
                forall|j: int|
                    0 <= j < CART0_SIZE ==> #[trigger] self.rom@[j] == if j < i && j < image@.len() {
                        image@[j]
                    } else {
                        old(self).rom@[j]
                    },
                self.bios == old(self).bios,
                self.wram == old(self).wram,
                self.iwram == old(self).iwram,
                self.registers == old(self).registers,
                self.palette == old(self).palette,
                self.vram == old(self).vram,
                self.oam == old(self).oam,
            decreases CART0_SIZE - i,
        {
            self.rom.set(i, image[i]);
            i = i + 1;
        }
    }

    /// Reads a byte.
    pub fn load8(&self, addr: u32) -> (r: u8)
        requires
            self.wf(),
        ensures
            r == self.byte(addr),
    {
        reveal(MMU::byte);
        if addr <= 0x0000_3FFF {
            self.bios[addr as usize]
        } else if 0x0200_0000 <= addr && addr <= 0x0203_FFFF {
            self.wram[(addr - 0x0200_0000) as usize]
        } else if 0x0300_0000 <= addr && addr <= 0x0300_7FFF {
            self.iwram[(addr - 0x0300_0000) as usize]
        } else if 0x0400_0000 <= addr && addr <= 0x0400_03FE {
            self.registers[(addr - 0x0400_0000) as usize]
        } else if 0x0500_0000 <= addr && addr <= 0x0500_03FF {
            self.palette[(addr - 0x0500_0000) as usize]
        } else if 0x0600_0000 <= addr && addr <= 0x0601_7FFF {
            self.vram[(addr - 0x0600_0000) as usize]
        } else if 0x0700_0000 <= addr && addr <= 0x0700_03FF {
            self.oam[(addr - 0x0700_0000) as usize]
        } else if 0x0800_0000 <= addr && addr <= 0x0DFF_FFFF {
            self.rom[((addr - 0x0800_0000) as usize) % CART0_SIZE]
        } else {
            0
        }
    }

    /// Reads a half-word, high byte first.
    pub fn load16(&self, addr: u32) -> (r: u16)
        requires
            self.wf(),
        ensures
            r == self.half(addr),
    {
        let hi = self.load8(addr) as u16;
        let lo = self.load8(addr.wrapping_add(1)) as u16;
        (hi << 8u16) | lo
    }

    /// Reads a word, high half-word first.
    pub fn load32(&self, addr: u32) -> (r: u32)
        requires
            self.wf(),
        ensures
            r == self.word(addr),
    {
        let hi = self.load16(addr) as u32;
        let lo = self.load16(addr.wrapping_add(2)) as u32;
        (hi << 16u32) | lo
    }

    /// Writes a byte; a no-op outside the writable regions.
    pub fn store8(&mut self, addr: u32, val: u8)
        requires
            old(self).wf(),
        ensures
        stored8(old(self), final(self), addr, val),
    {
        reveal(MMU::byte);
        if 0x0200_0000 <= addr && addr <= 0x0203_FFFF {
            self.wram.set((addr - 0x0200_0000) as usize, val);
        } else if 0x0300_0000 <= addr && addr <= 0x0300_7FFF {
            self.iwram.set((addr - 0x0300_0000) as usize, val);
        } else if 0x0400_0000 <= addr && addr <= 0x0400_03FE {
            self.registers.set((addr - 0x0400_0000) as usize, val);
        } else if 0x0500_0000 <= addr && addr <= 0x0500_03FF {
            self.palette.set((addr - 0x0500_0000) as usize, val);
        } else if 0x0600_0000 <= addr && addr <= 0x0601_7FFF {
            self.vram.set((addr - 0x0600_0000) as usize, val);
        } else if 0x0700_0000 <= addr && addr <= 0x0700_03FF {
            self.oam.set((addr - 0x0700_0000) as usize, val);
        }
    }

    /// Writes a half-word as two byte stores, high byte at `addr`, so that
    /// `load16` reads it back.
    pub fn store16(&mut self, addr: u32, val: u16)
        requires
            old(self).wf(),
        ensures
        stored16(old(self), final(self), addr, val),
    {
        self.store8(addr, (val >> 8u16) as u8);
        self.store8(addr.wrapping_add(1), val as u8);
    }

    /// Writes a word as four byte stores, highest byte at `addr`, so that
    /// `load32` reads it back.
    pub fn store32(&mut self, addr: u32, val: u32)
        requires
            old(self).wf(),
        ensures
        stored32(old(self), final(self), addr, val),
    {
        self.store8(addr, (val >> 24u32) as u8);
        self.store8(addr.wrapping_add(1), (val >> 16u32) as u8);
        self.store8(addr.wrapping_add(2), (val >> 8u32) as u8);
        self.store8(addr.wrapping_add(3), val as u8);
    }
}

/// A word stored at a writable address whose four bytes do not wrap past the
/// top of the address space reads back unchanged.
pub proof fn lemma_store_load_word(before: &MMU, after: &MMU, addr: u32, val: u32)
    requires
        stored32(before, after, addr, val),
        addr <= 0xFFFF_FFFC,
        writable(addr),
        writable((addr + 3) as u32),
    ensures
        after.word(addr) == val,
{
    let a1 = addr.wrapping_add(1);
    let a2 = addr.wrapping_add(2);
    let a3 = a2.wrapping_add(1);
    assert(a1 == addr + 1 && a2 == addr + 2 && a3 == addr + 3);
    assert(writable(a1) && writable(a2));
    let b0 = after.byte(addr);
    let b1 = after.byte(a1);
    let b2 = after.byte(a2);
    let b3 = after.byte(a3);
    assert(b0 == (val >> 24u32) as u8 && b1 == (val >> 16u32) as u8 && b2 == (val >> 8u32) as u8 && b3 == val as u8);
    assert(((((b0 as u16) << 8u16) | (b1 as u16)) as u32) << 16u32 | ((((b2 as u16) << 8u16) | (b3 as u16)) as u32) == val)
        by (bit_vector)
        requires
            b0 == (val >> 24u32) as u8,
            b1 == (val >> 16u32) as u8,
            b2 == (val >> 8u32) as u8,
            b3 == val as u8,
    ;
}

} // verus!
