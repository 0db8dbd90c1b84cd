use vstd::prelude::*;
use crate::memory::{mirrored, Ram};

verus! {

#[derive(Debug, Clone, Copy, PartialEq, Eq, Structural)]
pub enum SpriteSize {
    EightByEight,
    EightBySixteen,
}

/// Height in pixels of a sprite of the given size.
pub open spec fn sprite_height(size: SpriteSize) -> int {
    match size {
        SpriteSize::EightByEight => 8,
        SpriteSize::EightBySixteen => 16,
    }
}

/// Whether sprite `k` of `oam` covers pixel (x, y).
pub open spec fn sprite_covers(oam: Seq<u8>, k: int, x: int, y: int, size: SpriteSize) -> bool {
    let x_pos = mirrored(oam, (4 * k + 3) as u16) as int;
    let y_pos = mirrored(oam, (4 * k) as u16) as int;
    x_pos <= x < x_pos + 8 && y_pos <= y < y_pos + sprite_height(size)
}

/// One four-byte OAM record: y, tile, attributes, x.
#[derive(Clone, Copy)]
pub struct Sprite {
    pub bytes: [u8; 4],
}

impl Sprite {
    pub fn new(bytes: &[u8]) -> (r: Sprite)
        requires
            bytes@.len() == 4,
        ensures
            r.bytes@ == bytes@,
    {
        let r = Sprite { bytes: [bytes[0], bytes[1], bytes[2], bytes[3]] };
        proof {
            assert(r.bytes@ =~= bytes@);
        }
        r
    }

    /// The record of four bytes at `offset` in OAM.
    pub fn new_at(oam: &Ram<256>, offset: u16) -> (r: Sprite)
        ensures
            r.bytes@ == seq![
                mirrored(oam@, offset),
                mirrored(oam@, offset.wrapping_add(1)),
                mirrored(oam@, offset.wrapping_add(2)),
                mirrored(oam@, offset.wrapping_add(3)),
            ],
    {
        let r = Sprite {
            bytes: [
                oam.get(offset),
                oam.get(offset.wrapping_add(1)),
                oam.get(offset.wrapping_add(2)),
                oam.get(offset.wrapping_add(3)),
            ],
        };
        proof {
            assert(r.bytes@ =~= seq![
                mirrored(oam@, offset),
                mirrored(oam@, offset.wrapping_add(1)),
                mirrored(oam@, offset.wrapping_add(2)),
                mirrored(oam@, offset.wrapping_add(3)),
            ]);
        }
        r
    }

    pub fn x_pos(&self) -> (r: u8)
        ensures
            r == self.bytes@[3],
    {
        self.bytes[3]
    }

    pub fn y_pos(&self) -> (r: u8)
        ensures
            r == self.bytes@[0],
    {
        self.bytes[0]
    }

    /// The tile number; 8x16 sprites ignore bit 0, which selects the bank.
    pub fn tile_index(&self, size: SpriteSize) -> (r: u8)
        ensures
            r == (if size == SpriteSize::EightByEight { self.bytes@[1] } else { self.bytes@[1] & 0xFE }),
    {
        match size {
            SpriteSize::EightByEight => self.bytes[1],
            SpriteSize::EightBySixteen => self.bytes[1] & 0xFE,
        }
    }

    pub fn bank_for_eight_by_sixteen_sprite(&self) -> (r: u16)
        ensures
            r == (if self.bytes@[1] & 0x01 != 0 { 0x1000u16 } else { 0u16 }),
    {
        if self.bytes[1] & 0x01 != 0 {
            0x1000
        } else {
            0x0000
        }
    }

    pub fn palette_section(&self) -> (r: u8)
        ensures
            r == self.bytes@[2] & 0x07,
    {
        self.bytes[2] & (0x03 + 4)
    }

    pub fn above_background(&self) -> (r: bool)
        ensures
            r == (self.bytes@[2] & 0x20 != 0),
    {
        self.bytes[2] & 0x20 != 0
    }

    pub fn flipped_horizontally(&self) -> (r: bool)
        ensures
            r == (self.bytes@[2] & 0x40 != 0),
    {
        self.bytes[2] & 0x40 != 0
    }

    pub fn flipped_vertically(&self) -> (r: bool)
        ensures
            r == (self.bytes@[2] & 0x80 != 0),
    {
        self.bytes[2] & 0x80 != 0
    }

    pub open spec fn covers(&self, x: int, y: int, size: SpriteSize) -> bool {
        let x_pos = self.bytes@[3] as int;
        let y_pos = self.bytes@[0] as int;
        x_pos <= x < x_pos + 8 && y_pos <= y < y_pos + sprite_height(size)
    }

    /// Whether the sprite's bounding box holds pixel (x, y).
    pub fn contains_point(&self, x: usize, y: usize, size: SpriteSize) -> (r: bool)
        ensures
            r == self.covers(x as int, y as int, size),
    {
        let height: usize = match size {
            SpriteSize::EightByEight => 8,
            SpriteSize::EightBySixteen => 16,
        };
        let x_pos = self.x_pos() as usize;
        let y_pos = self.y_pos() as usize;
        x >= x_pos && x < x_pos + 8 && y >= y_pos && y < y_pos + height
    }
}

proof fn lemma_single_bit(v: u8, shift: u8)
    ensures
        (v >> shift) & 1 <= 1,
{
    assert((v >> shift) & 1 <= 1) by (bit_vector);
}

/// The two pattern-plane bytes of one row of a tile.
#[derive(Clone, Copy)]
pub struct TileSlice {
    pub lower_bit_plane: u8,
    pub upper_bit_plane: u8,
}

/// The 2-bit colour of `pixel` (0 = leftmost) in a row with the given planes.
pub open spec fn pattern_bits(lower: u8, upper: u8, pixel: u16) -> u16 {
    (((upper >> (7 - pixel) as u8) & 1) * 2 + ((lower >> (7 - pixel) as u8) & 1)) as u16
}

impl TileSlice {
    pub fn new(lower_bit_plane: u8, upper_bit_plane: u8) -> (r: TileSlice)
        ensures
            r.lower_bit_plane == lower_bit_plane,
            r.upper_bit_plane == upper_bit_plane,
    {
        TileSlice { lower_bit_plane, upper_bit_plane }
    }

    pub fn pattern_color(&self, pixel: u16) -> (r: u16)
        requires
            pixel < 8,
        ensures
            r == pattern_bits(self.lower_bit_plane, self.upper_bit_plane, pixel),
            r < 4,
    {
        let shift = (7 - pixel) as u8;
        let low = (self.lower_bit_plane >> shift) & 1;
        let high = (self.upper_bit_plane >> shift) & 1;
        proof {
            lemma_single_bit(self.lower_bit_plane, shift);
            lemma_single_bit(self.upper_bit_plane, shift);
        }
        (high * 2 + low) as u16
    }
}

/// The current eight-pixel background slice: a tile row and its palette.
#[derive(Clone, Copy)]
pub struct BackgroundSlice {
    pub tile_slice: TileSlice,
    pub palette_section: u8,
}

/// The palette-RAM index of a background pixel: 0 for a transparent pixel,
/// else the palette section and the pattern colour side by side.
pub open spec fn background_color(slice: BackgroundSlice, pixel: u16) -> u16 {
    let c = pattern_bits(slice.tile_slice.lower_bit_plane, slice.tile_slice.upper_bit_plane, pixel);
    if c != 0 {
        (slice.palette_section as int * 4 + c) as u16
    } else {
        0
    }
}

impl BackgroundSlice {
    pub fn new(lower_bit_plane: u8, upper_bit_plane: u8, palette_section: u8) -> (r: BackgroundSlice)
        ensures
            r.tile_slice.lower_bit_plane == lower_bit_plane,
            r.tile_slice.upper_bit_plane == upper_bit_plane,
            r.palette_section == palette_section,
    {
        BackgroundSlice { tile_slice: TileSlice::new(lower_bit_plane, upper_bit_plane), palette_section }
    }

    pub fn color(&self, pixel: u16) -> (r: u16)
        requires
            pixel < 8,
        ensures
            r == background_color(*self, pixel),
    {
        let pattern_color = self.tile_slice.pattern_color(pixel);
        if pattern_color != 0 {
            self.palette_section as u16 * 4 + pattern_color
        } else {
            0
        }
    }
}

} // verus!
