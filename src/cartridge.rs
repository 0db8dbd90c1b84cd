use vstd::prelude::*;
use crate::memory::{mirrored, Ram, Rom};
use crate::rom::{INES_PRG_ROM_UNITS, load_error, mapper_of, mirroring_of, Mirroring, RomFile, RomLoadError};

verus! {

/// A cartridge's address decoding, seen from the CPU ($4020-$FFFF) and from
/// the PPU ($0000-$2FFF). Peeks have no side effects; reads may.
pub trait Mapper: Sized {
    spec fn cpu_peek_spec(&self, address: u16) -> u8;

    spec fn cpu_read_spec(&self, address: u16) -> u8;

    spec fn after_cpu_read(&self, address: u16) -> Self;

    spec fn after_cpu_write(&self, address: u16, value: u8) -> Self;

    spec fn ppu_peek_spec(&self, address: u16) -> u8;

    spec fn ppu_read_spec(&self, address: u16) -> u8;

    spec fn after_ppu_read(&self, address: u16) -> Self;

    spec fn after_ppu_write(&self, address: u16, value: u8) -> Self;

    fn cpu_peek(&self, address: u16) -> (r: u8)
        ensures
            r == self.cpu_peek_spec(address),
    ;

    fn cpu_read(&mut self, address: u16) -> (r: u8)
        ensures
            r == old(self).cpu_read_spec(address),
            *final(self) == old(self).after_cpu_read(address),
    ;

    fn cpu_write(&mut self, address: u16, value: u8)
        ensures
            *final(self) == old(self).after_cpu_write(address, value),
    ;

    fn ppu_peek(&self, address: u16) -> (r: u8)
        ensures
            r == self.ppu_peek_spec(address),
    ;

    fn ppu_read(&mut self, address: u16) -> (r: u8)
        ensures
            r == old(self).ppu_read_spec(address),
            *final(self) == old(self).after_ppu_read(address),
    ;

    fn ppu_write(&mut self, address: u16, value: u8)
        ensures
            *final(self) == old(self).after_ppu_write(address, value),
    ;
}

/// No cartridge: reads give zero, writes are ignored.
pub struct EmptyCartridgeSlot;

impl Mapper for EmptyCartridgeSlot {
    open spec fn cpu_peek_spec(&self, address: u16) -> u8 {
        0
    }

    open spec fn cpu_read_spec(&self, address: u16) -> u8 {
        0
    }

    open spec fn after_cpu_read(&self, address: u16) -> Self {
        *self
    }

    open spec fn after_cpu_write(&self, address: u16, value: u8) -> Self {
        *self
    }

    open spec fn ppu_peek_spec(&self, address: u16) -> u8 {
        0
    }

    open spec fn ppu_read_spec(&self, address: u16) -> u8 {
        0
    }

    open spec fn after_ppu_read(&self, address: u16) -> Self {
        *self
    }

    open spec fn after_ppu_write(&self, address: u16, value: u8) -> Self {
        *self
    }

    fn cpu_peek(&self, address: u16) -> (r: u8) {
        0
    }

    fn cpu_read(&mut self, address: u16) -> (r: u8) {
        0
    }

    fn cpu_write(&mut self, address: u16, value: u8) {
    }

    fn ppu_peek(&self, address: u16) -> (r: u8) {
        0
    }

    fn ppu_read(&mut self, address: u16) -> (r: u8) {
        0
    }

    fn ppu_write(&mut self, address: u16, value: u8) {
    }
}

/// Where a nametable address (relative to $2000) lands in 2 KiB of VRAM.
pub open spec fn vram_index(address: u16, mirroring: Mirroring) -> u16 {
    match mirroring {
        Mirroring::Horizontal => (address % 0x400 + 0x400 * (address / 0x800)) as u16,
        _ => address % 0x800,
    }
}

fn mirror_vram_address(address: u16, mirroring: Mirroring) -> (r: u16)
    ensures
        r == vram_index(address, mirroring),
{
    match mirroring {
        Mirroring::Horizontal => (address % 0x400).wrapping_add(0x400u16.wrapping_mul(address / 0x800)),
        _ => address % 0x800,
    }
}

/// Mapper 0: PRG-ROM of `PRG_ROM_SIZE` bytes at $8000 (mirrored), 8 KiB of
/// CHR-ROM, optional 2 KiB of PRG-RAM at $6000, 2 KiB of nametable VRAM.
pub struct NROM<const PRG_ROM_SIZE: usize> {
    pub vram: Ram<2048>,
    pub prg_rom: Rom<PRG_ROM_SIZE>,
    pub chr_rom: Rom<8192>,
    pub prg_ram: Option<Ram<2048>>,
    pub mirroring: Mirroring,
}

impl<const PRG_ROM_SIZE: usize> NROM<PRG_ROM_SIZE> {
    fn new(rom_file: RomFile, mirroring: Mirroring) -> (r: Self)
        requires
            rom_file.prg_rom@.len() == PRG_ROM_SIZE,
            rom_file.chr_rom@.len() == 8192,
        ensures
            r.vram@ == Seq::new(2048, |i: int| 0u8),
            r.prg_rom@ == rom_file.prg_rom@,
            r.chr_rom@ == rom_file.chr_rom@,
            r.prg_ram.is_some() == (rom_file.header.flags6() & 0x02 != 0),
            r.prg_ram matches Some(m) ==> m@ == Seq::new(2048, |i: int| 0u8),
            r.mirroring == mirroring,
    {
        NROM {
            vram: Ram::<2048>::new(),
            prg_rom: Rom::from_slice(rom_file.prg_rom.as_slice()),
            chr_rom: Rom::from_slice(rom_file.chr_rom.as_slice()),
            prg_ram: if rom_file.header.has_persistent_memory() {
                Some(Ram::new())
            } else {
                None
            },
            mirroring,
        }
    }
}

impl<const PRG_ROM_SIZE: usize> Mapper for NROM<PRG_ROM_SIZE> {
    open spec fn cpu_peek_spec(&self, address: u16) -> u8 {
        if 0x6000 <= address <= 0x7FFF {
            match self.prg_ram {
                Some(ram) => mirrored(ram@, (address - 0x6000) as u16),
                None => 0,
            }
        } else if address >= 0x8000 {
            mirrored(self.prg_rom@, (address - 0x8000) as u16)
        } else {
            0
        }
    }

    open spec fn cpu_read_spec(&self, address: u16) -> u8 {
        self.cpu_peek_spec(address)
    }

    open spec fn after_cpu_read(&self, address: u16) -> Self {
        *self
    }

    open spec fn after_cpu_write(&self, address: u16, value: u8) -> Self {
        self.with_prg_ram_write(address, value)
    }

    open spec fn ppu_peek_spec(&self, address: u16) -> u8 {
        if address < 0x2000 {
            mirrored(self.chr_rom@, address)
        } else if address < 0x3000 {
            mirrored(self.vram@, vram_index((address - 0x2000) as u16, self.mirroring))
        } else {
            0
        }
    }

    open spec fn ppu_read_spec(&self, address: u16) -> u8 {
        self.ppu_peek_spec(address)
    }

    open spec fn after_ppu_read(&self, address: u16) -> Self {
        *self
    }

    open spec fn after_ppu_write(&self, address: u16, value: u8) -> Self {
        self.with_vram_write(address, value)
    }

    fn cpu_peek(&self, address: u16) -> (r: u8) {
        if 0x6000 <= address && address <= 0x7FFF {
            match &self.prg_ram {
                Some(ram) => ram.get(address - 0x6000),
                None => 0,
            }
        } else if address >= 0x8000 {
            self.prg_rom.get(address - 0x8000)
        } else {
            0
        }
    }

    fn cpu_read(&mut self, address: u16) -> (r: u8) {
        self.cpu_peek(address)
    }

    fn cpu_write(&mut self, address: u16, value: u8) {
        if 0x6000 <= address && address <= 0x7FFF {
            match self.prg_ram.take() {
                Some(mut ram) => {
                    ram.set(address - 0x6000, value);
                    self.prg_ram = Some(ram);
                },
                None => {},
            }
        }
    }

    fn ppu_peek(&self, address: u16) -> (r: u8) {
        if address < 0x2000 {
            self.chr_rom.get(address)
        } else if address < 0x3000 {
            self.vram.get(mirror_vram_address(address - 0x2000, self.mirroring))
        } else {
            0
        }
    }

    fn ppu_read(&mut self, address: u16) -> (r: u8) {
        self.ppu_peek(address)
    }

    fn ppu_write(&mut self, address: u16, value: u8) {
        if 0x2000 <= address && address < 0x3000 {
            self.vram.set(mirror_vram_address(address - 0x2000, self.mirroring), value);
        }
    }
}

impl<const PRG_ROM_SIZE: usize> NROM<PRG_ROM_SIZE> {
    /// PRG-RAM, if present, written at a CPU address in $6000-$7FFF; ROM ignores writes.
    pub open spec fn with_prg_ram_write(&self, address: u16, value: u8) -> Self {
        if 0x6000 <= address <= 0x7FFF && self.prg_ram.is_some() {
            NROM {
                prg_ram: Some(
                    self.prg_ram.unwrap().updated((address - 0x6000) as u16, value),
                ),
                ..*self
            }
        } else {
            *self
        }
    }

    /// VRAM written at a PPU address in $2000-$2FFF; CHR-ROM ignores writes.
    pub open spec fn with_vram_write(&self, address: u16, value: u8) -> Self {
        if 0x2000 <= address < 0x3000 {
            NROM {
                vram: self.vram.updated(vram_index((address - 0x2000) as u16, self.mirroring), value),
                ..*self
            }
        } else {
            *self
        }
    }
}

/// The cartridge in the slot, by mapper.
pub enum Cartridge {
    Empty(EmptyCartridgeSlot),
    Nrom128(NROM<16384>),
    Nrom256(NROM<32768>),
}

impl Mapper for Cartridge {
    open spec fn cpu_peek_spec(&self, address: u16) -> u8 {
        match self {
            Cartridge::Empty(c) => c.cpu_peek_spec(address),
            Cartridge::Nrom128(c) => c.cpu_peek_spec(address),
            Cartridge::Nrom256(c) => c.cpu_peek_spec(address),
        }
    }

    open spec fn cpu_read_spec(&self, address: u16) -> u8 {
        match self {
            Cartridge::Empty(c) => c.cpu_read_spec(address),
            Cartridge::Nrom128(c) => c.cpu_read_spec(address),
            Cartridge::Nrom256(c) => c.cpu_read_spec(address),
        }
    }

    open spec fn ppu_peek_spec(&self, address: u16) -> u8 {
        match self {
            Cartridge::Empty(c) => c.ppu_peek_spec(address),
            Cartridge::Nrom128(c) => c.ppu_peek_spec(address),
            Cartridge::Nrom256(c) => c.ppu_peek_spec(address),
        }
    }

    open spec fn ppu_read_spec(&self, address: u16) -> u8 {
        match self {
            Cartridge::Empty(c) => c.ppu_read_spec(address),
            Cartridge::Nrom128(c) => c.ppu_read_spec(address),
            Cartridge::Nrom256(c) => c.ppu_read_spec(address),
        }
    }

    open spec fn after_cpu_read(&self, address: u16) -> Self {
        match self {
            Cartridge::Empty(c) => Cartridge::Empty(c.after_cpu_read(address)),
            Cartridge::Nrom128(c) => Cartridge::Nrom128(c.after_cpu_read(address)),
            Cartridge::Nrom256(c) => Cartridge::Nrom256(c.after_cpu_read(address)),
        }
    }

    open spec fn after_cpu_write(&self, address: u16, value: u8) -> Self {
        match self {
            Cartridge::Empty(c) => Cartridge::Empty(c.after_cpu_write(address, value)),
            Cartridge::Nrom128(c) => Cartridge::Nrom128(c.after_cpu_write(address, value)),
            Cartridge::Nrom256(c) => Cartridge::Nrom256(c.after_cpu_write(address, value)),
        }
    }

    open spec fn after_ppu_read(&self, address: u16) -> Self {
        match self {
            Cartridge::Empty(c) => Cartridge::Empty(c.after_ppu_read(address)),
            Cartridge::Nrom128(c) => Cartridge::Nrom128(c.after_ppu_read(address)),
            Cartridge::Nrom256(c) => Cartridge::Nrom256(c.after_ppu_read(address)),
        }
    }

    open spec fn after_ppu_write(&self, address: u16, value: u8) -> Self {
        match self {
            Cartridge::Empty(c) => Cartridge::Empty(c.after_ppu_write(address, value)),
            Cartridge::Nrom128(c) => Cartridge::Nrom128(c.after_ppu_write(address, value)),
            Cartridge::Nrom256(c) => Cartridge::Nrom256(c.after_ppu_write(address, value)),
        }
    }

    fn cpu_peek(&self, address: u16) -> (r: u8) {
        match self {
            Cartridge::Empty(c) => c.cpu_peek(address),
            Cartridge::Nrom128(c) => c.cpu_peek(address),
            Cartridge::Nrom256(c) => c.cpu_peek(address),
        }
    }

    fn cpu_read(&mut self, address: u16) -> (r: u8) {
        match self {
            Cartridge::Empty(c) => c.cpu_read(address),
            Cartridge::Nrom128(c) => c.cpu_read(address),
            Cartridge::Nrom256(c) => c.cpu_read(address),
        }
    }

    fn cpu_write(&mut self, address: u16, value: u8) {
        match self {
            Cartridge::Empty(c) => c.cpu_write(address, value),
            Cartridge::Nrom128(c) => c.cpu_write(address, value),
            Cartridge::Nrom256(c) => c.cpu_write(address, value),
        }
    }

    fn ppu_peek(&self, address: u16) -> (r: u8) {
        match self {
            Cartridge::Empty(c) => c.ppu_peek(address),
            Cartridge::Nrom128(c) => c.ppu_peek(address),
            Cartridge::Nrom256(c) => c.ppu_peek(address),
        }
    }

    fn ppu_read(&mut self, address: u16) -> (r: u8) {
        match self {
            Cartridge::Empty(c) => c.ppu_read(address),
            Cartridge::Nrom128(c) => c.ppu_read(address),
            Cartridge::Nrom256(c) => c.ppu_read(address),
        }
    }

    fn ppu_write(&mut self, address: u16, value: u8) {
        match self {
            Cartridge::Empty(c) => c.ppu_write(address, value),
            Cartridge::Nrom128(c) => c.ppu_write(address, value),
            Cartridge::Nrom256(c) => c.ppu_write(address, value),
        }
    }
}

/// Whether an NROM board holds the given PRG-ROM and CHR-ROM, fresh VRAM,
/// PRG-RAM (zeroed) exactly when flags 6 asks for it, and the header's mirroring.
pub open spec fn nrom_holds<const N: usize>(n: NROM<N>, prg: Seq<u8>, chr: Seq<u8>, flags6: u8) -> bool {
    &&& n.prg_rom@ == prg
    &&& n.chr_rom@ == chr
    &&& n.mirroring == mirroring_of(flags6)
    &&& n.vram@ == Seq::new(2048, |i: int| 0u8)
    &&& n.prg_ram.is_some() == (flags6 & 0x02 != 0)
    &&& (n.prg_ram matches Some(m) ==> m@ == Seq::new(2048, |i: int| 0u8))
}

/// Whether `c` is the cartridge that the iNES image `bytes` describes.
pub open spec fn holds_image(c: Cartridge, bytes: Seq<u8>) -> bool {
    let t: int = if bytes[6] & 0x04 != 0 { 512 } else { 0 };
    let prg_start = 16 + t;
    let chr_start = prg_start + bytes[4] * INES_PRG_ROM_UNITS;
    let prg = bytes.subrange(prg_start, chr_start);
    let chr = bytes.subrange(chr_start, chr_start + 8192);
    match c {
        Cartridge::Nrom128(n) => bytes[4] == 1 && nrom_holds(n, prg, chr, bytes[6]),
        Cartridge::Nrom256(n) => bytes[4] == 2 && nrom_holds(n, prg, chr, bytes[6]),
        Cartridge::Empty(_) => false,
    }
}

/// The error, if any, that building a cartridge from `f` reports.
pub open spec fn cartridge_error(f: RomFile) -> Option<RomLoadError> {
    if mapper_of(f.header.flags6(), f.header.flags7()) != 0 {
        Some(RomLoadError::UnsupportedMapper)
    } else if mirroring_of(f.header.flags6()) == Mirroring::FourScreen {
        Some(RomLoadError::UnsupportedFormat)
    } else if !(f.prg_rom@.len() == 16384 || f.prg_rom@.len() == 32768) || f.chr_rom@.len() != 8192 {
        Some(RomLoadError::MalformedRomFile)
    } else {
        None
    }
}

impl Cartridge {
    /// An empty slot.
    pub fn default() -> (r: Cartridge)
        ensures
            r matches Cartridge::Empty(_),
    {
        Cartridge::Empty(EmptyCartridgeSlot)
    }

    /// Builds the mapper that the ROM file's header names.
    pub fn new(rom_file: RomFile) -> (r: Result<Cartridge, RomLoadError>)
        ensures
            match r {
                Err(e) => cartridge_error(rom_file) == Some(e),
                Ok(c) => cartridge_error(rom_file) == None::<RomLoadError> && match c {
                    Cartridge::Nrom128(n) => rom_file.prg_rom@.len() == 16384 && nrom_holds(
                        n,
                        rom_file.prg_rom@,
                        rom_file.chr_rom@,
                        rom_file.header.flags6(),
                    ),
                    Cartridge::Nrom256(n) => rom_file.prg_rom@.len() == 32768 && nrom_holds(
                        n,
                        rom_file.prg_rom@,
                        rom_file.chr_rom@,
                        rom_file.header.flags6(),
                    ),
                    Cartridge::Empty(_) => false,
                },
            },
    {
        let mirroring = rom_file.header.mirroring();
        if rom_file.header.mapper_number() != 0 {
            return Err(RomLoadError::UnsupportedMapper);
        }
        if mirroring == Mirroring::FourScreen {
            return Err(RomLoadError::UnsupportedFormat);
        }
        if rom_file.chr_rom.len() != 8192 {
            return Err(RomLoadError::MalformedRomFile);
        }
        if rom_file.prg_rom.len() == 16384 {
            Ok(Cartridge::Nrom128(NROM::<16384>::new(rom_file, mirroring)))
        } else if rom_file.prg_rom.len() == 32768 {
            Ok(Cartridge::Nrom256(NROM::<32768>::new(rom_file, mirroring)))
        } else {
            Err(RomLoadError::MalformedRomFile)
        }
    }

    /// Parses an iNES file and builds its cartridge.
    pub fn load(bytes: Vec<u8>) -> (r: Result<Cartridge, RomLoadError>)
        ensures
            load_error(bytes@) is Some ==> r == Err::<Cartridge, RomLoadError>(load_error(bytes@).unwrap()),
            load_error(bytes@) is None ==> {
                let four_screen = mirroring_of(bytes@[6]) == Mirroring::FourScreen;
                let sized = (bytes@[4] == 1 || bytes@[4] == 2) && bytes@[5] == 1;
                match r {
                    Ok(c) => !four_screen && sized && holds_image(c, bytes@),
                    Err(e) => (four_screen && e == RomLoadError::UnsupportedFormat) || (!four_screen
                        && !sized && e == RomLoadError::MalformedRomFile),
                }
            },
    {
        match RomFile::load(bytes) {
            Ok(rom_file) => Self::new(rom_file),
            Err(e) => Err(e),
        }
    }
}

} // verus!
