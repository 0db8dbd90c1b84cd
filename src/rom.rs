use vstd::prelude::*;

verus! {

pub const INES_HEADER_LENGTH: usize = 16;

pub const INES_TRAINER_LENGTH: usize = 512;

pub const INES_PRG_ROM_UNITS: usize = 16384;

pub const INES_CHR_ROM_UNITS: usize = 8192;

#[derive(Debug, Clone, Copy, PartialEq, Eq, Structural)]
pub enum Mirroring {
    Horizontal,
    Vertical,
    FourScreen,
}

#[derive(Debug, Clone, Copy, PartialEq, Eq, Structural)]
pub enum ConsoleType {
    Nes,
    VsSystem,
    Playchoice10,
    ExtendedConsoleType,
}

#[derive(Debug, Clone, Copy, PartialEq, Eq, Structural)]
pub enum RomLoadError {
    UnsupportedFormat,
    UnsupportedConsole,
    UnsupportedMapper,
    MalformedRomFile,
}

/// The mapper number: high nibble from flags 7, low nibble from flags 6.
pub open spec fn mapper_of(flags6: u8, flags7: u8) -> u16 {
    ((flags7 / 16) as int * 16 + (flags6 / 16) as int) as u16
}

pub open spec fn mirroring_of(flags6: u8) -> Mirroring {
    if flags6 & 0x08 != 0 {
        Mirroring::FourScreen
    } else if flags6 & 0x01 != 0 {
        Mirroring::Vertical
    } else {
        Mirroring::Horizontal
    }
}

pub open spec fn console_of(flags7: u8) -> ConsoleType {
    match flags7 % 4 {
        0 => ConsoleType::Nes,
        1 => ConsoleType::VsSystem,
        2 => ConsoleType::Playchoice10,
        _ => ConsoleType::ExtendedConsoleType,
    }
}

/// The sixteen bytes of an iNES header.
pub struct INesHeader {
    pub bytes: [u8; 16],
}

impl INesHeader {
    pub open spec fn flags6(&self) -> u8 {
        self.bytes@[6]
    }

    pub open spec fn flags7(&self) -> u8 {
        self.bytes@[7]
    }

    pub open spec fn trainer_length(&self) -> int {
        if self.flags6() & 0x04 != 0 { INES_TRAINER_LENGTH as int } else { 0 }
    }

    fn new(bytes: &[u8]) -> (r: INesHeader)
        requires
            bytes@.len() >= 16,
        ensures
            r.bytes@ == bytes@.subrange(0, 16),
    {
        let r = INesHeader {
            bytes: [
                bytes[0],
                bytes[1],
                bytes[2],
                bytes[3],
                bytes[4],
                bytes[5],
                bytes[6],
                bytes[7],
                bytes[8],
                bytes[9],
                bytes[10],
                bytes[11],
                bytes[12],
                bytes[13],
                bytes[14],
                bytes[15],
            ],
        };
        proof {
            assert(r.bytes@ =~= bytes@.subrange(0, 16));
        }
        r
    }

    fn prg_rom_size(&self) -> (r: usize)
        ensures
            r == self.bytes@[4] as int * INES_PRG_ROM_UNITS,
    {
        self.bytes[4] as usize * INES_PRG_ROM_UNITS
    }

    fn chr_rom_size(&self) -> (r: usize)
        ensures
            r == self.bytes@[5] as int * INES_CHR_ROM_UNITS,
    {
        self.bytes[5] as usize * INES_CHR_ROM_UNITS
    }

    /// Four-screen if bit 3 of flags 6 is set, else vertical if bit 0 is set.
    pub fn mirroring(&self) -> (r: Mirroring)
        ensures
            r == mirroring_of(self.flags6()),
    {
        if self.bytes[6] & 0x08 != 0 {
            Mirroring::FourScreen
        } else if self.bytes[6] & 0x01 != 0 {
            Mirroring::Vertical
        } else {
            Mirroring::Horizontal
        }
    }

    pub fn has_persistent_memory(&self) -> (r: bool)
        ensures
            r == (self.flags6() & 0x02 != 0),
    {
        self.bytes[6] & 0x02 != 0
    }

    fn has_trainer(&self) -> (r: bool)
        ensures
            r == (self.flags6() & 0x04 != 0),
    {
        self.bytes[6] & 0x04 != 0
    }

    pub fn mapper_number(&self) -> (r: u16)
        ensures
            r == mapper_of(self.flags6(), self.flags7()),
    {
        (self.bytes[7] / 16) as u16 * 16 + (self.bytes[6] / 16) as u16
    }

    pub fn console_type(&self) -> (r: ConsoleType)
        ensures
            r == console_of(self.flags7()),
    {
        match self.bytes[7] % 4 {
            0 => ConsoleType::Nes,
            1 => ConsoleType::VsSystem,
            2 => ConsoleType::Playchoice10,
            _ => ConsoleType::ExtendedConsoleType,
        }
    }

    /// Bits 2-3 of flags 7 equal to 2 mark an NES 2.0 header.
    fn is_ines_2_header(&self) -> (r: bool)
        ensures
            r == (self.flags7() & 0x0C == 8),
    {
        self.bytes[7] & 0x0C == 8
    }
}

/// An iNES file cut into its parts.
pub struct RomFile {
    pub header: INesHeader,
    pub trainer: Option<Vec<u8>>,
    pub prg_rom: Vec<u8>,
    pub chr_rom: Vec<u8>,
}

/// The error, if any, that loading `bytes` reports, in the order the checks run.
pub open spec fn load_error(bytes: Seq<u8>) -> Option<RomLoadError> {
    if bytes.len() < 16 {
        Some(RomLoadError::MalformedRomFile)
    } else if bytes.subrange(0, 4) != seq![0x4Eu8, 0x45u8, 0x53u8, 0x1Au8] {
        Some(RomLoadError::UnsupportedFormat)
    } else if bytes[7] & 0x0C == 8 {
        Some(RomLoadError::UnsupportedFormat)
    } else if mapper_of(bytes[6], bytes[7]) != 0 {
        Some(RomLoadError::UnsupportedMapper)
    } else if console_of(bytes[7]) != ConsoleType::Nes {
        Some(RomLoadError::UnsupportedConsole)
    } else if bytes.len() < 16 + (if bytes[6] & 0x04 != 0 { 512int } else { 0 }) + bytes[4]
        * INES_PRG_ROM_UNITS + bytes[5] * INES_CHR_ROM_UNITS {
        Some(RomLoadError::MalformedRomFile)
    } else {
        None
    }
}

fn slice_from(bytes: &Vec<u8>, start: usize, n: usize) -> (r: Vec<u8>)
    requires
        start + n <= bytes@.len(),
    ensures
        r@ == bytes@.subrange(start as int, start + n),
{
    let mut r: Vec<u8> = Vec::new();
    let mut i: usize = 0;
    let len = bytes.len();
    while i < n
        invariant
            len == bytes@.len(),
            start + n <= bytes@.len(),
            0 <= i <= n,
            r@ == bytes@.subrange(start as int, start + i),
        decreases n - i,
    {
        r.push(bytes[start + i]);
        i = i + 1;
        proof {
            assert(r@ =~= bytes@.subrange(start as int, start + i));
        }
    }
    r
}

impl RomFile {
    /// Parses an iNES v1 file: header, optional 512-byte trainer, PRG-ROM, CHR-ROM.
    pub fn load(bytes: Vec<u8>) -> (r: Result<RomFile, RomLoadError>)
        ensures
            match r {
                Err(e) => load_error(bytes@) == Some(e),
                Ok(f) => {
                    let t = f.header.trainer_length();
                    let p = 16 + t;
                    let c = p + bytes@[4] * INES_PRG_ROM_UNITS;
                    &&& load_error(bytes@) == None::<RomLoadError>
                    &&& f.header.bytes@ == bytes@.subrange(0, 16)
                    &&& match f.trainer {
                        Some(v) => t == 512 && v@ == bytes@.subrange(16, 528),
                        None => t == 0,
                    }
                    &&& f.prg_rom@ == bytes@.subrange(p, c)
                    &&& f.chr_rom@ == bytes@.subrange(c, c + bytes@[5] * INES_CHR_ROM_UNITS)
                },
            },
    {
        if bytes.len() < INES_HEADER_LENGTH {
            return Err(RomLoadError::MalformedRomFile);
        }
        if !(bytes[0] == 0x4E && bytes[1] == 0x45 && bytes[2] == 0x53 && bytes[3] == 0x1A) {
            proof {
                assert(bytes@.subrange(0, 4) != seq![0x4Eu8, 0x45u8, 0x53u8, 0x1Au8]) by {
                    let s = bytes@.subrange(0, 4);
                    if s == seq![0x4Eu8, 0x45u8, 0x53u8, 0x1Au8] {
                        assert(s[0] == 0x4E && s[1] == 0x45 && s[2] == 0x53 && s[3] == 0x1A);
                    }
                }
            }
            return Err(RomLoadError::UnsupportedFormat);
        }
        proof {
            assert(bytes@.subrange(0, 4) =~= seq![0x4Eu8, 0x45u8, 0x53u8, 0x1Au8]);
        }
        let header = INesHeader::new(bytes.as_slice());
        if header.is_ines_2_header() {
            return Err(RomLoadError::UnsupportedFormat);
        }
        if header.mapper_number() != 0 {
            return Err(RomLoadError::UnsupportedMapper);
        }
        if header.console_type() != ConsoleType::Nes {
            return Err(RomLoadError::UnsupportedConsole);
        }
        let trainer_length: usize = if header.has_trainer() {
            INES_TRAINER_LENGTH
        } else {
            0
        };
        let prg_size = header.prg_rom_size();
        let chr_size = header.chr_rom_size();
        if bytes.len() < INES_HEADER_LENGTH + trainer_length || bytes.len() - INES_HEADER_LENGTH
            - trainer_length < prg_size + chr_size {
            return Err(RomLoadError::MalformedRomFile);
        }
        let trainer = if header.has_trainer() {
            Some(slice_from(&bytes, INES_HEADER_LENGTH, INES_TRAINER_LENGTH))
        } else {
            None
        };
        let prg_start = INES_HEADER_LENGTH + trainer_length;
        let prg_rom = slice_from(&bytes, prg_start, prg_size);
        let chr_rom = slice_from(&bytes, prg_start + prg_size, chr_size);
        Ok(RomFile { header, trainer, prg_rom, chr_rom })
    }
}

} // verus!
