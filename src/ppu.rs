use vstd::prelude::*;
use vstd::array::spec_array_update;
use crate::cartridge::Mapper;
use crate::frame::{filled, with_pixel, Frame};
use crate::memory::{lemma_ram_with, mirrored, ram_with, PaletteRam, Ram};
use crate::palettes::{ntsc_color, ntsc_palette};
use crate::ppu_registers::{with_bit, OamAddr, PpuAddr, PpuCtrl, PpuMask, PpuScroll, PpuStatus};
use crate::rendering::{background_color, sprite_covers, BackgroundSlice, Sprite, SpriteSize, TileSlice};

verus! {

pub const SCANLINE_LENGTH: u16 = 341;

pub const TOTAL_SCANLINES: u16 = 262;

pub const VBLANK_START_SCANLINE: u16 = 240;

pub const NMI_SCANLINE: u16 = 241;

/// The eight memory-mapped PPU registers ($2000-$2007).
#[derive(Debug, Clone, Copy, PartialEq, Eq, Structural)]
pub enum PpuRegister {
    PpuCtrl,
    PpuMask,
    PpuStatus,
    OamAddr,
    OamData,
    PpuScroll,
    PpuAddr,
    PpuData,
}

/// The picture processing unit.
pub struct PPU {
    pub ppu_ctrl: PpuCtrl,
    pub ppu_mask: PpuMask,
    pub ppu_status: PpuStatus,
    pub oam_addr: OamAddr,
    pub ppu_scroll: PpuScroll,
    pub ppu_addr: PpuAddr,
    /// The write toggle that $2005 and $2006 share: set after the first write of a pair.
    pub write_toggle: bool,
    pub oam: Ram<256>,
    pub palette_ram: PaletteRam,
    pub ppu_data_read_buffer: u8,
    /// Dot within the scanline, 0..341.
    pub x: u16,
    /// Scanline, 0..262.
    pub y: u16,
    pub current_background_slice: BackgroundSlice,
    /// Raised on entering the NMI scanline while NMI is enabled; taken by the CPU side.
    pub nmi_interrupt: bool,
}

/// OAM after copying `data` in from `start`, wrapping at 256.
pub open spec fn oam_after_dma(oam: Seq<u8>, start: u8, data: Seq<u8>) -> Seq<u8> {
    Seq::new(256, |i: int| data[(i - start as int) % 256])
}

impl PPU {
    pub open spec fn wf(&self) -> bool {
        self.x < SCANLINE_LENGTH && self.y < TOTAL_SCANLINES
    }

    pub open spec fn vblank(&self) -> bool {
        self.y >= VBLANK_START_SCANLINE
    }

    /// The byte at the PPU address in $3F00-$3FFF, or the read buffer below it.
    pub open spec fn data_peek(&self) -> u8 {
        if self.ppu_addr.0 < 0x3F00 {
            self.ppu_data_read_buffer
        } else {
            self.palette_ram.at((self.ppu_addr.0 - 0x3F00) as u16)
        }
    }

    pub open spec fn peek_spec(&self, register: PpuRegister) -> u8 {
        match register {
            PpuRegister::PpuStatus => self.ppu_status.0,
            PpuRegister::OamData => mirrored(self.oam@, self.oam_addr.0 as u16),
            PpuRegister::PpuData => self.data_peek(),
            _ => 0,
        }
    }

    /// The PPU address after an access through $2007.
    pub open spec fn advanced_addr(&self) -> PpuAddr {
        PpuAddr(self.ppu_addr.0.wrapping_add(self.ppu_ctrl.increment_spec()) % 0x4000)
    }

    pub open spec fn read_value<C: Mapper>(&self, cart: C, register: PpuRegister) -> u8 {
        self.peek_spec(register)
    }

    /// The PPU and cartridge after a side-effecting read of `register`.
    pub open spec fn after_read_register<C: Mapper>(self, cart: C, register: PpuRegister) -> (PPU, C) {
        match register {
            PpuRegister::PpuStatus => (
                PPU {
                    ppu_status: PpuStatus(with_bit(self.ppu_status.0, 0x80, false)),
                    write_toggle: false,
                    ..self
                },
                cart,
            ),
            PpuRegister::OamData => (
                if self.vblank() { self } else {
                    PPU { oam_addr: OamAddr(self.oam_addr.0.wrapping_add(1)), ..self }
                },
                cart,
            ),
            PpuRegister::PpuData => {
                let address = self.ppu_addr.0;
                if address < 0x3F00 {
                    (
                        PPU {
                            ppu_addr: self.advanced_addr(),
                            ppu_data_read_buffer: cart.ppu_read_spec(address),
                            ..self
                        },
                        cart.after_ppu_read(address),
                    )
                } else {
                    (PPU { ppu_addr: self.advanced_addr(), ..self }, cart)
                }
            },
            _ => (self, cart),
        }
    }

    /// The PPU and cartridge after writing `value` to `register`.
    pub open spec fn after_write_register<C: Mapper>(
        self,
        cart: C,
        register: PpuRegister,
        value: u8,
    ) -> (PPU, C) {
        match register {
            PpuRegister::PpuCtrl => (PPU { ppu_ctrl: PpuCtrl(value), ..self }, cart),
            PpuRegister::PpuMask => (PPU { ppu_mask: PpuMask(value), ..self }, cart),
            PpuRegister::OamAddr => (PPU { oam_addr: OamAddr(value), ..self }, cart),
            PpuRegister::OamData => (
                PPU {
                    oam: self.oam.updated(self.oam_addr.0 as u16, value),
                    oam_addr: OamAddr(self.oam_addr.0.wrapping_add(1)),
                    ..self
                },
                cart,
            ),
            PpuRegister::PpuScroll => (
                PPU {
                    ppu_scroll: if !self.write_toggle {
                        PpuScroll { offset_x: value, ..self.ppu_scroll }
                    } else {
                        PpuScroll { offset_y: value, ..self.ppu_scroll }
                    },
                    write_toggle: !self.write_toggle,
                    ..self
                },
                cart,
            ),
            PpuRegister::PpuAddr => (
                PPU {
                    ppu_addr: if !self.write_toggle {
                        PpuAddr(((value % 64) as u16 * 256 + self.ppu_addr.0 % 256) as u16)
                    } else {
                        PpuAddr(((self.ppu_addr.0 / 256) * 256 + value as u16) as u16)
                    },
                    write_toggle: !self.write_toggle,
                    ..self
                },
                cart,
            ),
            PpuRegister::PpuData => {
                let address = self.ppu_addr.0;
                if address < 0x3F00 {
                    (PPU { ppu_addr: self.advanced_addr(), ..self }, cart.after_ppu_write(address, value))
                } else {
                    (
                        PPU {
                            ppu_addr: self.advanced_addr(),
                            palette_ram: self.palette_ram.updated((address - 0x3F00) as u16, value),
                            ..self
                        },
                        cart,
                    )
                }
            },
            PpuRegister::PpuStatus => (self, cart),
        }
    }

    /// The PPU after an OAM DMA of `data`.
    pub open spec fn after_dma(self, data: Seq<u8>) -> PPU {
        PPU { oam: ram_with(oam_after_dma(self.oam@, self.oam_addr.0, data)), ..self }
    }

    /// The state after one dot, apart from the background slice and the picture.
    pub open spec fn after_dot(self) -> PPU {
        let oam_addr = if 257 <= self.x <= 320 { OamAddr(0) } else { self.oam_addr };
        let x = self.x + 1;
        if x >= SCANLINE_LENGTH {
            let y = self.y + 1;
            let (nmi, status) = if y == NMI_SCANLINE {
                (
                    self.nmi_interrupt || self.ppu_ctrl.nmi_on_vblank(),
                    with_bit(with_bit(self.ppu_status.0, 0x80, true), 0x40, false),
                )
            } else {
                (self.nmi_interrupt, self.ppu_status.0)
            };
            if y >= TOTAL_SCANLINES {
                PPU {
                    x: 0,
                    y: 0,
                    nmi_interrupt: false,
                    ppu_status: PpuStatus(with_bit(with_bit(status, 0x80, false), 0x40, false)),
                    oam_addr,
                    ..self
                }
            } else {
                PPU { x: 0, y: y as u16, nmi_interrupt: nmi, ppu_status: PpuStatus(status), oam_addr, ..self }
            }
        } else {
            PPU { x: x as u16, oam_addr, ..self }
        }
    }

    /// The state after `n` dots, apart from the background slice and the picture.
    pub open spec fn after_dots(self, n: nat) -> PPU
        decreases n,
    {
        if n == 0 {
            self
        } else {
            self.after_dots((n - 1) as nat).after_dot()
        }
    }

    pub fn new() -> (r: PPU)
        ensures
            r.wf(),
            r.x == 0 && r.y == 0,
            !r.nmi_interrupt,
            r.ppu_ctrl.0 == 0 && r.ppu_mask.0 == 0 && r.ppu_status.0 == 0,
            r.oam_addr.0 == 0 && r.ppu_addr.0 == 0 && !r.write_toggle,
            r.ppu_data_read_buffer == 0,
            r.oam@ == Seq::new(256, |i: int| 0u8),
            forall|a: u16| r.palette_ram.at(a) == 0,
    {
        PPU {
            ppu_ctrl: PpuCtrl::new(),
            ppu_mask: PpuMask::new(),
            ppu_status: PpuStatus::new(),
            oam_addr: OamAddr::new(),
            ppu_scroll: PpuScroll::new(),
            ppu_addr: PpuAddr::new(),
            write_toggle: false,
            oam: Ram::<256>::new(),
            palette_ram: PaletteRam::new(),
            ppu_data_read_buffer: 0,
            x: 0,
            y: 0,
            current_background_slice: BackgroundSlice::new(0, 0, 0),
            nmi_interrupt: false,
        }
    }

    /// The slice fetched for the tile under (x, y) and the cartridge after the
    /// four reads, each made on the cartridge the previous one left: the
    /// nametable byte, the two pattern planes of its row, the attribute byte.
    pub open spec fn background_fetch<C: Mapper>(self, cart: C) -> (BackgroundSlice, C) {
        let tile_x = self.x / 8;
        let tile_y = self.y / 8;
        let base = self.ppu_ctrl.nametable_base() as int;
        let table = self.ppu_ctrl.background_table() as int;
        let name_address = (base + tile_y * 32 + tile_x) as u16;
        let entry = cart.ppu_read_spec(name_address);
        let c1 = cart.after_ppu_read(name_address);
        let low_address = (table + entry * 16 + self.y % 8) as u16;
        let low = c1.ppu_read_spec(low_address);
        let c2 = c1.after_ppu_read(low_address);
        let high_address = (low_address + 8) as u16;
        let high = c2.ppu_read_spec(high_address);
        let c3 = c2.after_ppu_read(high_address);
        let attribute_address = (base + 0x3C0 + (tile_y / 4) * 8 + tile_x / 4) as u16;
        let attribute = c3.ppu_read_spec(attribute_address);
        let c4 = c3.after_ppu_read(attribute_address);
        let quadrant = ((tile_y / 2) % 2) * 2 + (tile_x / 2) % 2;
        (
            BackgroundSlice {
                tile_slice: TileSlice { lower_bit_plane: low, upper_bit_plane: high },
                palette_section: (attribute >> (quadrant * 2) as u8) & 0x03,
            },
            c4,
        )
    }

    /// Whether one of the 64 OAM sprites covers pixel (x, y).
    pub open spec fn sprite_hit(self) -> bool {
        exists|k: int|
            0 <= k < 64 && #[trigger] sprite_covers(
                self.oam@,
                k,
                self.x as int,
                self.y as int,
                self.ppu_ctrl.sprite_size_spec(),
            )
    }

    /// The picture after drawing the visible pixel (x, y): the background
    /// colour when background rendering is on, then the sprite marker colour
    /// when sprite rendering is on and a sprite covers the pixel.
    pub open spec fn pixel_spec(self, frame: Seq<u8>) -> Seq<u8> {
        let x = self.x as int;
        let y = self.y as int;
        let f1 = if self.ppu_mask.0 & 0x08 != 0 {
            let index = background_color(self.current_background_slice, self.x % 8);
            with_pixel(frame, x, y, ntsc_palette(self.palette_ram.at(index) % 64))
        } else {
            frame
        };
        if self.ppu_mask.0 & 0x10 != 0 && self.sprite_hit() {
            with_pixel(f1, x, y, (0, 0, 255))
        } else {
            f1
        }
    }

    /// One dot in full: the PPU, the cartridge and the picture after it. The
    /// picture is cleared at (0, 0); on a visible dot the slice is fetched
    /// every eighth pixel and the pixel is drawn.
    pub open spec fn dot_spec<C: Mapper>(self, cart: C, frame: Seq<u8>) -> (PPU, C, Seq<u8>) {
        let f0 = if self.x == 0 && self.y == 0 { filled((255, 0, 255)) } else { frame };
        let visible = self.x < 256 && self.y < 240;
        let (slice, c1) = if visible && self.x % 8 == 0 {
            self.background_fetch(cart)
        } else {
            (self.current_background_slice, cart)
        };
        let f1 = if visible {
            (PPU { current_background_slice: slice, ..self }).pixel_spec(f0)
        } else {
            f0
        };
        (PPU { current_background_slice: slice, ..self.after_dot() }, c1, f1)
    }

    /// `n` dots in full.
    pub open spec fn dots_spec<C: Mapper>(self, cart: C, frame: Seq<u8>, n: nat) -> (PPU, C, Seq<u8>)
        decreases n,
    {
        if n == 0 {
            (self, cart, frame)
        } else {
            let (p, c, f) = self.dots_spec(cart, frame, (n - 1) as nat);
            p.dot_spec(c, f)
        }
    }

    /// Runs `cycles` dots.
    pub fn tick<C: Mapper>(&mut self, cartridge: &mut C, frame: &mut Frame, cycles: u64)
        requires
            old(frame).wf(),
        ensures
            final(frame).wf(),
            (*final(self), *final(cartridge), final(frame)@) == old(self).dots_spec(
                *old(cartridge),
                old(frame)@,
                cycles as nat,
            ),
            *final(self) == (PPU {
                current_background_slice: final(self).current_background_slice,
                ..old(self).after_dots(cycles as nat)
            }),
    {
        let mut i: u64 = 0;
        while i < cycles
            invariant
                0 <= i <= cycles,
                frame.wf(),
                (*self, *cartridge, frame@) == old(self).dots_spec(*old(cartridge), old(frame)@, i as nat),
                *self == (PPU {
                    current_background_slice: self.current_background_slice,
                    ..old(self).after_dots(i as nat)
                }),
            decreases cycles - i,
        {
            self.cycle(cartridge, frame);
            i = i + 1;
        }
    }

    /// One dot: background fetch and pixel output on visible dots, then the
    /// scanline walk with its VBlank and NMI edges.
    fn cycle<C: Mapper>(&mut self, cartridge: &mut C, frame: &mut Frame)
        requires
            old(frame).wf(),
        ensures
            final(frame).wf(),
            (*final(self), *final(cartridge), final(frame)@) == old(self).dot_spec(*old(cartridge), old(frame)@),
            *final(self) == (PPU {
                current_background_slice: final(self).current_background_slice,
                ..old(self).after_dot()
            }),
    {
        if self.x == 0 && self.y == 0 {
            frame.clear_with((255, 0, 255));
        }
        if self.x >= 257 && self.x <= 320 {
            self.oam_addr.reset_latch();
        }
        if self.x < 256 && self.y < 240 {
            if self.x % 8 == 0 {
                self.fetch_background_slice(cartridge);
            }
            self.draw_pixel(frame);
        }
        if self.x >= SCANLINE_LENGTH - 1 {
            self.x = 0;
            if self.y >= TOTAL_SCANLINES - 1 {
                self.y = 0;
                self.nmi_interrupt = false;
                self.ppu_status.set_vblank_started(false);
                self.ppu_status.set_sprite_zero_hit(false);
            } else {
                self.y = self.y + 1;
                if self.y == NMI_SCANLINE {
                    if self.ppu_ctrl.nmi_enabled() {
                        self.nmi_interrupt = true;
                    }
                    self.ppu_status.set_vblank_started(true);
                    self.ppu_status.set_sprite_zero_hit(false);
                }
            }
        } else {
            self.x = self.x + 1;
        }
    }

    /// Draws the visible pixel (x, y).
    fn draw_pixel(&self, frame: &mut Frame)
        requires
            old(frame).wf(),
            self.x < 256,
            self.y < 240,
        ensures
            final(frame).wf(),
            final(frame)@ == self.pixel_spec(old(frame)@),
    {
        if self.ppu_mask.render_background() {
            let color_index = self.current_background_slice.color(self.x % 8);
            let palette_index = self.palette_ram.get(color_index);
            let color = ntsc_color(palette_index % 64);
            frame.write(self.x as usize, self.y as usize, color);
        }
        let ghost f1 = frame@;
        if self.ppu_mask.render_sprites() {
            let sprite_size = self.ppu_ctrl.sprite_size();
            let mut i: u16 = 0;
            while i < 64
                invariant
                    frame.wf(),
                    frame@ == f1,
                    self.ppu_mask.0 & 0x10 != 0,
                    self.pixel_spec(old(frame)@) == (if self.sprite_hit() {
                        with_pixel(f1, self.x as int, self.y as int, (0, 0, 255))
                    } else {
                        f1
                    }),
                    self.x < 256 && self.y < 240,
                    0 <= i <= 64,
                    sprite_size == self.ppu_ctrl.sprite_size_spec(),
                    forall|k: int|
                        0 <= k < i ==> !#[trigger] sprite_covers(
                            self.oam@,
                            k,
                            self.x as int,
                            self.y as int,
                            sprite_size,
                        ),
                decreases 64 - i,
            {
                let sprite = Sprite::new_at(&self.oam, i * 4);
                if sprite.contains_point(self.x as usize, self.y as usize, sprite_size) {
                    assert(sprite_covers(self.oam@, i as int, self.x as int, self.y as int, sprite_size));
                    let ghost k = i as int;
                    assert(0 <= k < 64 && sprite_covers(self.oam@, k, self.x as int, self.y as int, self.ppu_ctrl.sprite_size_spec()));
                    assert(self.sprite_hit());
                    frame.write(self.x as usize, self.y as usize, (0, 0, 255));
                    return;
                }
                i = i + 1;
            }
        }
    }

    /// Fetches the nametable, attribute and pattern bytes of the tile under (x, y).
    fn fetch_background_slice<C: Mapper>(&mut self, cartridge: &mut C)
        requires
            old(self).x < 256,
            old(self).y < 240,
        ensures
            (final(self).current_background_slice, *final(cartridge)) == old(self).background_fetch(
                *old(cartridge),
            ),
            *final(self) == (PPU {
                current_background_slice: final(self).current_background_slice,
                ..*old(self)
            }),
    {
        let tile_x = self.x / 8;
        let tile_y = self.y / 8;
        let fine_y = self.y % 8;
        let nametable_address = self.ppu_ctrl.nametable_base_address();
        let nametable_entry = cartridge.ppu_read(nametable_address + tile_y * 32 + tile_x);
        let pattern_table_address = self.ppu_ctrl.background_pattern_table_address();
        let pattern_offset = nametable_entry as u16 * 16 + fine_y;
        let lower_bit_plane = cartridge.ppu_read(pattern_table_address + pattern_offset);
        let upper_bit_plane = cartridge.ppu_read(pattern_table_address + pattern_offset + 8);
        let attribute_address = nametable_address + 0x3C0 + (tile_y / 4) * 8 + (tile_x / 4);
        let attribute_byte = cartridge.ppu_read(attribute_address);
        let tile_quadrant = ((tile_y / 2) % 2) * 2 + (tile_x / 2) % 2;
        let palette_section = (attribute_byte >> (tile_quadrant * 2) as u8) & 0x03;
        self.current_background_slice = BackgroundSlice::new(
            lower_bit_plane,
            upper_bit_plane,
            palette_section,
        );
    }

    pub fn in_vblank(&self) -> (r: bool)
        ensures
            r == self.vblank(),
    {
        self.y >= VBLANK_START_SCANLINE
    }

    /// Returns the NMI edge flag and clears it.
    pub fn take_interrupt(&mut self) -> (r: bool)
        ensures
            r == old(self).nmi_interrupt,
            *final(self) == (PPU { nmi_interrupt: false, ..*old(self) }),
    {
        let r = self.nmi_interrupt;
        self.nmi_interrupt = false;
        r
    }

    /// Copies a page into OAM, starting at OAMADDR and wrapping.
    pub fn oam_dma(&mut self, oam_data: &[u8])
        requires
            oam_data@.len() == 256,
        ensures
            final(self).oam@ == oam_after_dma(old(self).oam@, old(self).oam_addr.0, oam_data@),
            *final(self) == (PPU {
                oam: ram_with(oam_after_dma(old(self).oam@, old(self).oam_addr.0, oam_data@)),
                ..*old(self)
            }),
    {
        let start = self.oam_addr.0;
        let mut i: usize = 0;
        while i < 256
            invariant
                oam_data@.len() == 256,
                0 <= i <= 256,
                start == old(self).oam_addr.0,
                *self == (PPU { oam: self.oam, ..*old(self) }),
                forall|j: int|
                    0 <= j < 256 ==> #[trigger] self.oam@[j] == if (j - start as int) % 256 < i {
                        oam_data@[(j - start as int) % 256]
                    } else {
                        old(self).oam@[j]
                    },
            decreases 256 - i,
        {
            self.oam.set(start as u16 + i as u16, oam_data[i]);
            i = i + 1;
        }
        proof {
            assert(self.oam@ =~= oam_after_dma(old(self).oam@, start, oam_data@));
            lemma_ram_with(self.oam);
        }
    }

    pub fn peek_register(&self, register: PpuRegister) -> (r: u8)
        ensures
            r == self.peek_spec(register),
    {
        match register {
            PpuRegister::PpuStatus => self.ppu_status.bits(),
            PpuRegister::OamData => self.oam.get(self.oam_addr.bits()),
            PpuRegister::PpuData => {
                let address = self.ppu_addr.bits();
                if address < 0x3F00 {
                    self.ppu_data_read_buffer
                } else {
                    self.palette_ram.get(address - 0x3F00)
                }
            },
            _ => 0,
        }
    }

    /// A read with its side effects: $2002 clears VBlank and resets the shared
    /// write toggle, $2004 advances outside VBlank, $2007 buffers below $3F00.
    pub fn read_register<C: Mapper>(&mut self, cartridge: &mut C, register: PpuRegister) -> (r: u8)
        ensures
            r == old(self).read_value(*old(cartridge), register),
            (*final(self), *final(cartridge)) == old(self).after_read_register(
                *old(cartridge),
                register,
            ),
    {
        match register {
            PpuRegister::PpuStatus => {
                let value = self.ppu_status.read();
                self.write_toggle = false;
                value
            },
            PpuRegister::OamData => {
                let value = self.oam.get(self.oam_addr.bits());
                if !self.in_vblank() {
                    self.oam_addr.increment();
                }
                value
            },
            PpuRegister::PpuData => {
                let address = self.ppu_addr.bits();
                let increment = self.ppu_ctrl.vram_address_increment();
                self.ppu_addr.increment(increment);
                if address < 0x3F00 {
                    let buffered = cartridge.ppu_read(address);
                    let value = self.ppu_data_read_buffer;
                    self.ppu_data_read_buffer = buffered;
                    value
                } else {
                    self.palette_ram.get(address - 0x3F00)
                }
            },
            _ => 0,
        }
    }

    pub fn write_register<C: Mapper>(&mut self, cartridge: &mut C, register: PpuRegister, value: u8)
        ensures
            (*final(self), *final(cartridge)) == old(self).after_write_register(
                *old(cartridge),
                register,
                value,
            ),
    {
        match register {
            PpuRegister::PpuCtrl => self.ppu_ctrl.write(value),
            PpuRegister::PpuMask => self.ppu_mask.write(value),
            PpuRegister::PpuStatus => {},
            PpuRegister::OamAddr => self.oam_addr.write(value),
            PpuRegister::OamData => {
                self.oam.set(self.oam_addr.bits(), value);
                self.oam_addr.increment();
            },
            PpuRegister::PpuScroll => {
                if !self.write_toggle {
                    self.ppu_scroll.offset_x = value;
                } else {
                    self.ppu_scroll.offset_y = value;
                }
                self.write_toggle = !self.write_toggle;
            },
            PpuRegister::PpuAddr => {
                if !self.write_toggle {
                    self.ppu_addr.write_high(value);
                } else {
                    self.ppu_addr.write_low(value);
                }
                self.write_toggle = !self.write_toggle;
            },
            PpuRegister::PpuData => {
                let address = self.ppu_addr.bits();
                let increment = self.ppu_ctrl.vram_address_increment();
                self.ppu_addr.increment(increment);
                if address < 0x3F00 {
                    cartridge.ppu_write(address, value);
                } else {
                    self.palette_ram.set(address - 0x3F00, value);
                }
            },
        }
    }
}

/// A byte written through $2007 at $3F10, $3F14, $3F18 or $3F1C is what a
/// later read of $3F00, $3F04, $3F08 or $3F0C (respectively) observes.
pub proof fn lemma_palette_mirror<C: Mapper>(ppu: PPU, cart: C, k: u16, value: u8)
    requires
        k < 4,
        ppu.ppu_addr.0 == 0x3F10 + 4 * k,
    ensures
        ({
            let (p, _) = ppu.after_write_register(cart, PpuRegister::PpuData, value);
            p.palette_ram.at((4 * k) as u16) == value && p.palette_ram.at((0x10 + 4 * k) as u16) == value
        }),
{
}

/// The NMI flag rises only on the dot that enters the NMI scanline, and only
/// while NMI is enabled: once per frame, and never from within VBlank.
pub proof fn lemma_nmi_edge(ppu: PPU)
    ensures
        ppu.after_dot().nmi_interrupt && !ppu.nmi_interrupt ==> ppu.x + 1 >= SCANLINE_LENGTH && ppu.y
            + 1 == NMI_SCANLINE && ppu.ppu_ctrl.nmi_on_vblank(),
        NMI_SCANLINE <= ppu.y && !ppu.nmi_interrupt ==> !ppu.after_dot().nmi_interrupt,
{
}

} // verus!
