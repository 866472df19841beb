//! The CPU's address space: work RAM, the PPU's registers, OAM DMA, cartridge
//! SRAM and program ROM.
use vstd::prelude::*;
use byteorder::{ByteOrder, LittleEndian};
use crate::ppu::{frame_position, on_raster, Mirroring, NesPPU, DOTS_PER_FRAME};

verus! {

/// Relies on byteorder's `LittleEndian::read_u16`: the first byte is the low one.
#[verifier::external_body]
fn le_u16(lo: u8, hi: u8) -> (r: u16)
    ensures
        r as int == lo as int + 256 * hi as int,
{
    LittleEndian::read_u16(&[lo, hi])
}

/// Offset in work RAM of an address below `0x2000`: the low 11 bits.
fn ram_index(addr: u16) -> (r: usize)
    ensures
        r as int == addr as int % 0x800,
        r < 2048,
{
    assert(addr & 0x07ff == addr % 0x800) by (bit_vector);
    (addr & 0x07ff) as usize
}

/// The address-space bus.
pub struct Memory {
    /// 2 KiB of work RAM, seen four times in `0x0000..0x2000`.
    pub ram: [u8; 2048],
    /// Cartridge SRAM at `0x6000..0x8000`.
    pub sram: [u8; 8192],
    /// Program ROM from `0x8000`, repeated to fill the 32 KiB window.
    pub prg_rom: Vec<u8>,
    pub ppu: NesPPU,
}

/// Address of the OAM DMA trigger.
pub const OAM_DMA: u16 = 0x4014;

impl Memory {
    pub open spec fn spec_prg(&self, addr: u16) -> u8 {
        if self.prg_rom@.len() == 0 {
            0
        } else {
            self.prg_rom@[(addr as int - 0x8000) % (self.prg_rom@.len() as int)]
        }
    }

    /// The byte at `addr` where a read has no side effect: RAM, SRAM, ROM.
    /// Registers and unmapped space read as 0 here.
    pub open spec fn spec_peek(&self, addr: u16) -> u8 {
        if addr < 0x2000 {
            self.ram@[addr as int % 0x800]
        } else if 0x6000 <= addr < 0x8000 {
            self.sram@[addr as int - 0x6000]
        } else if addr >= 0x8000 {
            self.spec_prg(addr)
        } else {
            0
        }
    }

    /// What a CPU read of `addr` returns. Write-only registers and unmapped
    /// space read as 0.
    pub open spec fn spec_read(&self, addr: u16) -> u8 {
        if 0x2000 <= addr < 0x4000 {
            let r = addr % 8;
            if r == 2 {
                self.ppu.status.bits
            } else if r == 4 {
                self.ppu.oam_data@[self.ppu.oam_addr as int]
            } else if r == 7 {
                self.ppu.spec_read_data()
            } else {
                0
            }
        } else {
            self.spec_peek(addr)
        }
    }

    /// Little-endian word at `addr` and the byte after it.
    pub open spec fn spec_peek_u16(&self, addr: u16) -> u16 {
        (self.spec_peek(addr) as int + 256 * self.spec_peek(addr.wrapping_add(1)) as int) as u16
    }

    pub open spec fn same_cartridge(&self, o: &Memory) -> bool {
        &&& self.sram == o.sram
        &&& self.prg_rom@ == o.prg_rom@
    }

    /// The state change of a CPU read of `addr`.
    #[verifier::opaque]
    pub open spec fn read_post(old: &Memory, new: &Memory, addr: u16) -> bool {
        &&& new.ram == old.ram
        &&& new.same_cartridge(old)
        &&& if 0x2000 <= addr < 0x4000 && addr % 8 == 2 {
            NesPPU::read_status_post(&old.ppu, &new.ppu)
        } else if 0x2000 <= addr < 0x4000 && addr % 8 == 7 {
            NesPPU::read_data_post(&old.ppu, &new.ppu)
        } else {
            new.ppu == old.ppu
        }
    }

    /// The 256 bytes that an OAM DMA from `page` copies.
    pub open spec fn dma_page(&self, page: u8) -> Seq<u8> {
        Seq::new(256, |i: int| self.spec_peek((page as int * 256 + i) as u16))
    }

    /// The state change of a CPU write of `data` to `addr`.
    #[verifier::opaque]
    pub open spec fn write_post(old: &Memory, new: &Memory, addr: u16, data: u8) -> bool {
        if addr < 0x2000 {
            &&& new.ram@ == old.ram@.update(addr as int % 0x800, data)
            &&& new.same_cartridge(old)
            &&& new.ppu == old.ppu
        } else if addr < 0x4000 {
            &&& new.ram == old.ram
            &&& new.same_cartridge(old)
            &&& match addr % 8 {
                0 => NesPPU::write_to_ctrl_post(&old.ppu, &new.ppu, data),
                1 => NesPPU::write_to_mask_post(&old.ppu, &new.ppu, data),
                3 => NesPPU::write_to_oam_addr_post(&old.ppu, &new.ppu, data),
                4 => NesPPU::write_to_oam_data_post(&old.ppu, &new.ppu, data),
                5 => NesPPU::write_to_scroll_post(&old.ppu, &new.ppu, data),
                6 => NesPPU::write_to_ppu_addr_post(&old.ppu, &new.ppu, data),
                7 => NesPPU::write_to_data_post(&old.ppu, &new.ppu, data),
                _ => new.ppu == old.ppu,
            }
        } else if addr == OAM_DMA {
            &&& new.ram == old.ram
            &&& new.same_cartridge(old)
            &&& NesPPU::write_oam_dma_post(&old.ppu, &new.ppu, old.dma_page(data))
        } else if 0x6000 <= addr < 0x8000 {
            &&& new.ram == old.ram
            &&& new.sram@ == old.sram@.update(addr as int - 0x6000, data)
            &&& new.prg_rom@ == old.prg_rom@
            &&& new.ppu == old.ppu
        } else {
            &&& new.ram == old.ram
            &&& new.same_cartridge(old)
            &&& new.ppu == old.ppu
        }
    }

    /// A bus with no cartridge: zeroed RAM and an empty picture unit.
    pub fn new() -> (r: Self)
        ensures
            r.ram@ == Seq::new(2048, |i: int| 0u8),
            r.sram@ == Seq::new(8192, |i: int| 0u8),
            r.prg_rom@.len() == 0,
            r.ppu.chr_rom@ == Seq::new(2048, |i: int| 0u8),
            r.ppu.mirroring == Mirroring::Horizontal,
            r.ppu.fresh(),
    {
        Memory::from_cartridge(Vec::new(), vec![0; 2048], Mirroring::Horizontal)
    }

    /// A bus around a cartridge's program and pattern ROM.
    pub fn from_cartridge(prg_rom: Vec<u8>, chr_rom: Vec<u8>, mirroring: Mirroring) -> (r: Self)
        ensures
            r.ram@ == Seq::new(2048, |i: int| 0u8),
            r.sram@ == Seq::new(8192, |i: int| 0u8),
            r.prg_rom@ == prg_rom@,
            r.ppu.chr_rom@ == chr_rom@,
            r.ppu.mirroring == mirroring,
            r.ppu.fresh(),
    {
        let r = Memory { ram: [0; 2048], sram: [0; 8192], prg_rom, ppu: NesPPU::new(chr_rom, mirroring) };
        assert(r.ram@ =~= Seq::new(2048, |i: int| 0u8));
        assert(r.sram@ =~= Seq::new(8192, |i: int| 0u8));
        r
    }

    /// Reads where reading has no side effect (see `spec_peek`).
    pub fn peek(&self, addr: u16) -> (r: u8)
        ensures
            r == self.spec_peek(addr),
    {
        if addr < 0x2000 {
            self.ram[ram_index(addr)]
        } else if addr >= 0x6000 && addr < 0x8000 {
            self.sram[(addr - 0x6000) as usize]
        } else if addr >= 0x8000 {
            let len = self.prg_rom.len();
            if len == 0 {
                0
            } else {
                self.prg_rom[((addr - 0x8000) as usize) % len]
            }
        } else {
            0
        }
    }

    /// A CPU read; the PPU's status and data registers change state when read.
    pub fn read(&mut self, addr: u16) -> (r: u8)
        ensures
            r == old(self).spec_read(addr),
            Self::read_post(old(self), final(self), addr),
    {
        reveal(Memory::read_post);
        if addr >= 0x2000 && addr < 0x4000 {
            let reg = addr & 0x2007;
            assert(0x2000 <= addr < 0x4000 ==> (addr & 0x2007) == 0x2000 + addr % 8) by (bit_vector);
            if reg == 0x2002 {
                self.ppu.read_status()
            } else if reg == 0x2004 {
                self.ppu.read_oam_data()
            } else if reg == 0x2007 {
                self.ppu.read_data()
            } else {
                0
            }
        } else {
            self.peek(addr)
        }
    }

    /// A CPU write. Writes to ROM, to read-only registers and to unmapped space
    /// are dropped.
    pub fn write(&mut self, addr: u16, data: u8)
        ensures
            Self::write_post(old(self), final(self), addr, data),
    {
        reveal(Memory::write_post);
        if addr < 0x2000 {
            self.ram[ram_index(addr)] = data;
        } else if addr < 0x4000 {
            let reg = addr & 0x2007;
            assert(0x2000 <= addr < 0x4000 ==> (addr & 0x2007) == 0x2000 + addr % 8) by (bit_vector);
            if reg == 0x2000 {
                self.ppu.write_to_ctrl(data);
            } else if reg == 0x2001 {
                self.ppu.write_to_mask(data);
            } else if reg == 0x2003 {
                self.ppu.write_to_oam_addr(data);
            } else if reg == 0x2004 {
                self.ppu.write_to_oam_data(data);
            } else if reg == 0x2005 {
                self.ppu.write_to_scroll(data);
            } else if reg == 0x2006 {
                self.ppu.write_to_ppu_addr(data);
            } else if reg == 0x2007 {
                self.ppu.write_to_data(data);
            }
        } else if addr == OAM_DMA {
            let buffer = self.dma_buffer(data);
            self.ppu.write_oam_dma(&buffer);
        } else if addr >= 0x6000 && addr < 0x8000 {
            self.sram[(addr - 0x6000) as usize] = data;
        }
    }

    /// The page that an OAM DMA copies.
    fn dma_buffer(&self, page: u8) -> (r: [u8; 256])
        ensures
            r@ == self.dma_page(page),
    {
        let mut buffer = [0u8; 256];
        let base: u16 = (page as u16) * 256;
        let mut i: usize = 0;
        while i < 256
            invariant
                0 <= i <= 256,
                base as int == page as int * 256,
                forall|j: int| 0 <= j < i ==> buffer@[j] == self.spec_peek((page as int * 256 + j) as u16),
            decreases 256 - i,
        {
            buffer[i] = self.peek(base + i as u16);
            i = i + 1;
        }
        assert(buffer@ =~= self.dma_page(page));
        buffer
    }

    /// Little-endian word at `addr` and the byte after it, both side-effect-free reads.
    pub fn read_u16(&self, addr: u16) -> (r: u16)
        ensures
            r == self.spec_peek_u16(addr),
    {
        let lo = self.peek(addr);
        let hi = self.peek(addr.wrapping_add(1));
        le_u16(lo, hi)
    }

    /// Advances the PPU by three dots per CPU cycle; returns whether a frame was completed.
    pub fn tick(&mut self, cpu_cycles: u16) -> (r: bool)
        requires
            cpu_cycles <= 21845,
        ensures
            on_raster(old(self).ppu.dot_state()) ==> frame_position(final(self).ppu.dot_state())
                == (frame_position(old(self).ppu.dot_state()) + 3 * cpu_cycles)
                % DOTS_PER_FRAME as int,
            on_raster(old(self).ppu.dot_state()) ==> (r <==> frame_position(
                old(self).ppu.dot_state(),
            ) + 3 * cpu_cycles >= DOTS_PER_FRAME),
            final(self).ram == old(self).ram,
            final(self).same_cartridge(old(self)),
            NesPPU::ticked(&old(self).ppu, &final(self).ppu, 3 * cpu_cycles as nat, r),
    {
        self.ppu.tick(cpu_cycles * 3)
    }
}

} // verus!
