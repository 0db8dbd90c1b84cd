use vstd::prelude::*;
use crate::rendering::SpriteSize;

verus! {

/// OAMADDR ($2003): the OAM byte that $2004 accesses.
pub struct OamAddr(pub u8);

impl OamAddr {
    pub fn new() -> (r: OamAddr)
        ensures
            r.0 == 0,
    {
        OamAddr(0)
    }

    pub fn bits(&self) -> (r: u16)
        ensures
            r == self.0 as u16,
    {
        self.0 as u16
    }

    pub fn write(&mut self, byte: u8)
        ensures
            final(self).0 == byte,
    {
        self.0 = byte;
    }

    pub fn increment(&mut self)
        ensures
            final(self).0 == old(self).0.wrapping_add(1),
    {
        self.0 = self.0.wrapping_add(1);
    }

    pub fn reset_latch(&mut self)
        ensures
            final(self).0 == 0,
    {
        self.0 = 0;
    }
}

/// PPUADDR ($2006): the 14-bit PPU address, written high byte then low byte.
pub struct PpuAddr(pub u16);

impl PpuAddr {
    pub fn new() -> (r: PpuAddr)
        ensures
            r.0 == 0,
    {
        PpuAddr(0)
    }

    pub fn bits(&self) -> (r: u16)
        ensures
            r == self.0,
    {
        self.0
    }

    /// Shifts `byte` in as the new low byte, keeping 14 bits.
    pub fn write(&mut self, byte: u8)
        ensures
            final(self).0 == ((old(self).0 % 256) * 256 + byte as u16) % 0x4000,
    {
        self.0 = ((self.0 % 256) * 256 + byte as u16) % 0x4000;
    }

    /// First write of a pair: the high six bits.
    pub fn write_high(&mut self, byte: u8)
        ensures
            final(self).0 == (byte % 64) as u16 * 256 + old(self).0 % 256,
    {
        self.0 = (byte % 64) as u16 * 256 + self.0 % 256;
    }

    /// Second write of a pair: the low byte.
    pub fn write_low(&mut self, byte: u8)
        ensures
            final(self).0 == (old(self).0 / 256) * 256 + byte as u16,
    {
        self.0 = (self.0 / 256) * 256 + byte as u16;
    }

    pub fn increment(&mut self, increment: u16)
        ensures
            final(self).0 == old(self).0.wrapping_add(increment) % 0x4000,
    {
        self.0 = self.0.wrapping_add(increment) % 0x4000;
    }

    pub fn reset_latch(&mut self)
        ensures
            final(self).0 == 0,
    {
        self.0 = 0;
    }
}

/// PPUCTRL ($2000).
pub struct PpuCtrl(pub u8);

impl PpuCtrl {
    pub open spec fn nmi_on_vblank(&self) -> bool {
        self.0 & 0x80 != 0
    }

    pub open spec fn increment_spec(&self) -> u16 {
        if self.0 & 0x04 != 0 { 32 } else { 1 }
    }

    pub open spec fn nametable_base(&self) -> u16 {
        (0x2000 + (self.0 % 4) as int * 0x400) as u16
    }

    pub open spec fn background_table(&self) -> u16 {
        if self.0 & 0x10 != 0 { 0x1000 } else { 0 }
    }

    pub fn new() -> (r: PpuCtrl)
        ensures
            r.0 == 0,
    {
        PpuCtrl(0)
    }

    pub fn bits(&self) -> (r: u8)
        ensures
            r == self.0,
    {
        self.0
    }

    pub fn write(&mut self, byte: u8)
        ensures
            final(self).0 == byte,
    {
        self.0 = byte;
    }

    /// $2000, $2400, $2800 or $2C00 from bits 0-1.
    pub fn nametable_base_address(&self) -> (r: u16)
        ensures
            r == self.nametable_base(),
    {
        match self.0 % 4 {
            0 => 0x2000,
            1 => 0x2400,
            2 => 0x2800,
            _ => 0x2C00,
        }
    }

    /// 1 or 32 from bit 2.
    pub fn vram_address_increment(&self) -> (r: u16)
        ensures
            r == self.increment_spec(),
    {
        if self.0 & 0x04 != 0 {
            32
        } else {
            1
        }
    }

    pub fn sprite_pattern_table_address_for_8x8(&self) -> (r: u16)
        ensures
            r == (if self.0 & 0x08 != 0 { 0x1000u16 } else { 0u16 }),
    {
        if self.0 & 0x08 != 0 {
            0x1000
        } else {
            0x0000
        }
    }

    pub fn background_pattern_table_address(&self) -> (r: u16)
        ensures
            r == self.background_table(),
    {
        if self.0 & 0x10 != 0 {
            0x1000
        } else {
            0x0000
        }
    }

    pub open spec fn sprite_size_spec(&self) -> SpriteSize {
        if self.0 & 0x20 != 0 {
            SpriteSize::EightBySixteen
        } else {
            SpriteSize::EightByEight
        }
    }

    pub fn sprite_size(&self) -> (r: SpriteSize)
        ensures
            r == self.sprite_size_spec(),
    {
        if self.0 & 0x20 != 0 {
            SpriteSize::EightBySixteen
        } else {
            SpriteSize::EightByEight
        }
    }

    pub fn nmi_enabled(&self) -> (r: bool)
        ensures
            r == self.nmi_on_vblank(),
    {
        self.0 & 0x80 != 0
    }
}

/// PPUMASK ($2001).
pub struct PpuMask(pub u8);

impl PpuMask {
    pub fn new() -> (r: PpuMask)
        ensures
            r.0 == 0,
    {
        PpuMask(0)
    }

    pub fn write(&mut self, value: u8)
        ensures
            final(self).0 == value,
    {
        self.0 = value;
    }

    pub fn rendering_enabled(&self) -> (r: bool)
        ensures
            r == (self.0 & 0x08 != 0 || self.0 & 0x10 != 0),
    {
        self.render_background() || self.render_sprites()
    }

    pub fn grayscale(&self) -> (r: bool)
        ensures
            r == (self.0 & 0x01 != 0),
    {
        self.0 & 0x01 != 0
    }

    pub fn render_background_in_left_margin(&self) -> (r: bool)
        ensures
            r == (self.0 & 0x02 != 0),
    {
        self.0 & 0x02 != 0
    }

    pub fn render_sprites_in_left_margin(&self) -> (r: bool)
        ensures
            r == (self.0 & 0x04 != 0),
    {
        self.0 & 0x04 != 0
    }

    pub fn render_background(&self) -> (r: bool)
        ensures
            r == (self.0 & 0x08 != 0),
    {
        self.0 & 0x08 != 0
    }

    pub fn render_sprites(&self) -> (r: bool)
        ensures
            r == (self.0 & 0x10 != 0),
    {
        self.0 & 0x10 != 0
    }

    pub fn emphasize_red(&self) -> (r: bool)
        ensures
            r == (self.0 & 0x20 != 0),
    {
        self.0 & 0x20 != 0
    }

    pub fn emphasize_green(&self) -> (r: bool)
        ensures
            r == (self.0 & 0x40 != 0),
    {
        self.0 & 0x40 != 0
    }

    pub fn emphasize_blue(&self) -> (r: bool)
        ensures
            r == (self.0 & 0x80 != 0),
    {
        self.0 & 0x80 != 0
    }
}

/// PPUSCROLL ($2005): x then y, on a shared write toggle.
pub struct PpuScroll {
    pub offset_x: u8,
    pub offset_y: u8,
    pub first_write: bool,
}

impl PpuScroll {
    pub fn new() -> (r: PpuScroll)
        ensures
            r.offset_x == 0 && r.offset_y == 0 && r.first_write,
    {
        PpuScroll { offset_x: 0, offset_y: 0, first_write: true }
    }

    pub fn write(&mut self, value: u8)
        ensures
            final(self).first_write == !old(self).first_write,
            old(self).first_write ==> final(self).offset_x == value && final(self).offset_y
                == old(self).offset_y,
            !old(self).first_write ==> final(self).offset_y == value && final(self).offset_x
                == old(self).offset_x,
    {
        if self.first_write {
            self.offset_x = value;
        } else {
            self.offset_y = value;
        }
        self.first_write = !self.first_write;
    }

    pub fn offset_x(&self) -> (r: u8)
        ensures
            r == self.offset_x,
    {
        self.offset_x
    }

    pub fn offset_y(&self) -> (r: u8)
        ensures
            r == self.offset_y,
    {
        self.offset_y
    }

    pub fn reset_latch(&mut self)
        ensures
            final(self).offset_x == 0 && final(self).offset_y == 0 && final(self).first_write,
    {
        self.offset_x = 0;
        self.offset_y = 0;
        self.first_write = true;
    }
}

/// `bits` with bit `mask` set to `status`.
pub open spec fn with_bit(bits: u8, mask: u8, status: bool) -> u8 {
    (bits & !mask) | (if status { mask } else { 0 })
}

/// PPUSTATUS ($2002): bit 7 VBlank started, bit 6 sprite-0 hit, bit 5 overflow.
pub struct PpuStatus(pub u8);

impl PpuStatus {
    pub fn new() -> (r: PpuStatus)
        ensures
            r.0 == 0,
    {
        PpuStatus(0)
    }

    pub fn bits(&self) -> (r: u8)
        ensures
            r == self.0,
    {
        self.0
    }

    /// Returns the bits, then clears VBlank.
    pub fn read(&mut self) -> (r: u8)
        ensures
            r == old(self).0,
            final(self).0 == with_bit(old(self).0, 0x80, false),
    {
        let value = self.0;
        self.set_vblank_started(false);
        value
    }

    pub fn set_sprite_overflow(&mut self, status: bool)
        ensures
            final(self).0 == with_bit(old(self).0, 0x20, status),
    {
        self.0 = (self.0 & !0x20u8) | if status {
            0x20
        } else {
            0
        };
    }

    pub fn set_sprite_zero_hit(&mut self, status: bool)
        ensures
            final(self).0 == with_bit(old(self).0, 0x40, status),
    {
        self.0 = (self.0 & !0x40u8) | if status {
            0x40
        } else {
            0
        };
    }

    pub fn set_vblank_started(&mut self, status: bool)
        ensures
            final(self).0 == with_bit(old(self).0, 0x80, status),
    {
        self.0 = (self.0 & !0x80u8) | if status {
            0x80
        } else {
            0
        };
    }
}

} // verus!
