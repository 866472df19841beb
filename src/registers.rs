//! The three bitfield registers of the picture unit: control, mask and status.
use vstd::prelude::*;

verus! {

/// `PPUCTRL`: base nametable, address increment, pattern tables, sprite size, NMI enable.
#[derive(Clone, Copy, Debug, PartialEq, Eq, Structural)]
pub struct ControlRegister {
    pub bits: u8,
}

pub const CTRL_VRAM_ADD_INCREMENT: u8 = 0b0000_0100;
pub const CTRL_SPRITE_SIZE: u8 = 0b0010_0000;
pub const CTRL_GENERATE_NMI: u8 = 0b1000_0000;

impl ControlRegister {
    pub fn new() -> (r: Self)
        ensures
            r.bits == 0,
    {
        ControlRegister { bits: 0 }
    }

    pub open spec fn spec_vram_addr_increment(&self) -> u8 {
        if self.bits & CTRL_VRAM_ADD_INCREMENT == 0 { 1 } else { 32 }
    }

    pub open spec fn spec_generate_vblank_nmi(&self) -> bool {
        self.bits & CTRL_GENERATE_NMI != 0
    }

    pub open spec fn spec_sprite_height(&self) -> u8 {
        if self.bits & CTRL_SPRITE_SIZE == 0 { 8 } else { 16 }
    }

    /// The step added to the VRAM address after each `PPUDATA` access: 1 or 32.
    pub fn vram_addr_increment(&self) -> (r: u8)
        ensures
            r == self.spec_vram_addr_increment(),
    {
        if self.bits & CTRL_VRAM_ADD_INCREMENT == 0 { 1 } else { 32 }
    }

    pub fn generate_vblank_nmi(&self) -> (r: bool)
        ensures
            r == self.spec_generate_vblank_nmi(),
    {
        self.bits & CTRL_GENERATE_NMI != 0
    }

    /// Height in lines of every sprite: 8 or 16.
    pub fn sprite_height(&self) -> (r: u8)
        ensures
            r == self.spec_sprite_height(),
    {
        if self.bits & CTRL_SPRITE_SIZE == 0 { 8 } else { 16 }
    }

    pub fn update(&mut self, data: u8)
        ensures
            final(self).bits == data,
    {
        self.bits = data;
    }
}

/// `PPUMASK`: greyscale, left-column clipping, background and sprite enable, emphasis.
#[derive(Clone, Copy, Debug, PartialEq, Eq, Structural)]
pub struct MaskRegister {
    pub bits: u8,
}

pub const MASK_SHOW_BACKGROUND: u8 = 0b0000_1000;
pub const MASK_SHOW_SPRITES: u8 = 0b0001_0000;

impl MaskRegister {
    pub fn new() -> (r: Self)
        ensures
            r.bits == 0,
    {
        MaskRegister { bits: 0 }
    }

    pub open spec fn spec_show_background(&self) -> bool {
        self.bits & MASK_SHOW_BACKGROUND != 0
    }

    pub open spec fn spec_show_sprites(&self) -> bool {
        self.bits & MASK_SHOW_SPRITES != 0
    }

    pub fn show_background(&self) -> (r: bool)
        ensures
            r == self.spec_show_background(),
    {
        self.bits & MASK_SHOW_BACKGROUND != 0
    }

    pub fn show_sprites(&self) -> (r: bool)
        ensures
            r == self.spec_show_sprites(),
    {
        self.bits & MASK_SHOW_SPRITES != 0
    }

    pub fn update(&mut self, data: u8)
        ensures
            final(self).bits == data,
    {
        self.bits = data;
    }
}

/// `PPUSTATUS`: VBlank (bit 7), sprite-zero hit (bit 6), sprite overflow (bit 5).
#[derive(Clone, Copy, Debug, PartialEq, Eq, Structural)]
pub struct StatusRegister {
    pub bits: u8,
}

pub const STATUS_SPRITE_OVERFLOW: u8 = 0b0010_0000;
pub const STATUS_SPRITE_ZERO_HIT: u8 = 0b0100_0000;
pub const STATUS_VBLANK_STARTED: u8 = 0b1000_0000;

/// `bits` with the bits of `flag` set to `on`.
pub open spec fn with_flag(bits: u8, flag: u8, on: bool) -> u8 {
    if on { bits | flag } else { bits & !flag }
}

impl StatusRegister {
    pub fn new() -> (r: Self)
        ensures
            r.bits == 0,
    {
        StatusRegister { bits: 0 }
    }

    pub open spec fn spec_is_in_vblank(&self) -> bool {
        self.bits & STATUS_VBLANK_STARTED != 0
    }

    pub open spec fn spec_sprite_zero_hit(&self) -> bool {
        self.bits & STATUS_SPRITE_ZERO_HIT != 0
    }

    pub fn set_vblank_status(&mut self, status: bool)
        ensures
            final(self).bits == with_flag(old(self).bits, STATUS_VBLANK_STARTED, status),
    {
        if status {
            self.bits = self.bits | STATUS_VBLANK_STARTED;
        } else {
            self.bits = self.bits & !STATUS_VBLANK_STARTED;
        }
    }

    pub fn set_sprite_zero_hit(&mut self, status: bool)
        ensures
            final(self).bits == with_flag(old(self).bits, STATUS_SPRITE_ZERO_HIT, status),
    {
        if status {
            self.bits = self.bits | STATUS_SPRITE_ZERO_HIT;
        } else {
            self.bits = self.bits & !STATUS_SPRITE_ZERO_HIT;
        }
    }

    pub fn reset_vblank_status(&mut self)
        ensures
            final(self).bits == old(self).bits & !STATUS_VBLANK_STARTED,
    {
        self.bits = self.bits & !STATUS_VBLANK_STARTED;
    }

    pub fn is_in_vblank(&self) -> (r: bool)
        ensures
            r == self.spec_is_in_vblank(),
    {
        self.bits & STATUS_VBLANK_STARTED != 0
    }

    pub fn is_sprite_zero_hit(&self) -> (r: bool)
        ensures
            r == self.spec_sprite_zero_hit(),
    {
        self.bits & STATUS_SPRITE_ZERO_HIT != 0
    }

    /// The byte that a `PPUSTATUS` read returns.
    pub fn snapshot(&self) -> (r: u8)
        ensures
            r == self.bits,
    {
        self.bits
    }
}

} // verus!
