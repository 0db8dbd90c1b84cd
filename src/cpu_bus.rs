use vstd::prelude::*;
use crate::bus::Bus16;
use crate::cartridge::{Cartridge, Mapper};
use crate::input::ControllerPort;
use crate::memory::{lemma_ram_exists, mirrored, Ram};
use crate::ppu::oam_after_dma;
use crate::ppu::{PpuRegister, PPU};

verus! {

/// What a CPU address selects.
#[derive(Debug, Clone, Copy, PartialEq, Eq, Structural)]
pub enum MappedAddress {
    Ram(u16),
    Ppu(PpuRegister),
    OamDma,
    ControllerPortA,
    ControllerPortB,
    Cartridge(u16),
    Unimplemented,
}

/// The PPU register that an address in $2000-$3FFF selects (mirrored every 8 bytes).
pub open spec fn ppu_register_at(address: u16) -> PpuRegister {
    match address % 8 {
        0 => PpuRegister::PpuCtrl,
        1 => PpuRegister::PpuMask,
        2 => PpuRegister::PpuStatus,
        3 => PpuRegister::OamAddr,
        4 => PpuRegister::OamData,
        5 => PpuRegister::PpuScroll,
        6 => PpuRegister::PpuAddr,
        _ => PpuRegister::PpuData,
    }
}

/// The CPU memory map.
pub open spec fn map_spec(address: u16) -> MappedAddress {
    if address <= 0x1FFF {
        MappedAddress::Ram(address)
    } else if address <= 0x3FFF {
        MappedAddress::Ppu(ppu_register_at(address))
    } else if address == 0x4014 {
        MappedAddress::OamDma
    } else if address == 0x4016 {
        MappedAddress::ControllerPortA
    } else if address == 0x4017 {
        MappedAddress::ControllerPortB
    } else if address >= 0x4020 {
        MappedAddress::Cartridge(address)
    } else {
        MappedAddress::Unimplemented
    }
}

pub fn map_address(address: u16) -> (r: MappedAddress)
    ensures
        r == map_spec(address),
{
    if address <= 0x1FFF {
        MappedAddress::Ram(address)
    } else if address <= 0x3FFF {
        MappedAddress::Ppu(
            match address % 8 {
                0 => PpuRegister::PpuCtrl,
                1 => PpuRegister::PpuMask,
                2 => PpuRegister::PpuStatus,
                3 => PpuRegister::OamAddr,
                4 => PpuRegister::OamData,
                5 => PpuRegister::PpuScroll,
                6 => PpuRegister::PpuAddr,
                _ => PpuRegister::PpuData,
            },
        )
    } else if address == 0x4014 {
        MappedAddress::OamDma
    } else if address == 0x4016 {
        MappedAddress::ControllerPortA
    } else if address == 0x4017 {
        MappedAddress::ControllerPortB
    } else if address >= 0x4020 {
        MappedAddress::Cartridge(address)
    } else {
        MappedAddress::Unimplemented
    }
}

/// The CPU's view of the console: 2 KiB of RAM, the PPU registers, the
/// controller ports and the cartridge.
pub struct CpuBus {
    pub ram: Ram<2048>,
    pub ppu: PPU,
    pub port_a: ControllerPort,
    pub port_b: ControllerPort,
    pub cartridge: Cartridge,
}

/// The bytes read, and the bus left, by reading the first `n` bytes of `page`.
pub open spec fn page_reads(bus: CpuBus, page: u8, n: nat) -> (Seq<u8>, CpuBus)
    decreases n,
{
    if n == 0 {
        (Seq::empty(), bus)
    } else {
        let (bytes, b) = page_reads(bus, page, (n - 1) as nat);
        let address = (page as int * 256 + (n - 1)) as u16;
        (bytes.push(b.read_spec(address)), b.after_read(address))
    }
}

impl Bus16 for CpuBus {
    open spec fn peek_spec(&self, address: u16) -> u8 {
        match map_spec(address) {
            MappedAddress::Ram(a) => mirrored(self.ram@, a),
            MappedAddress::Ppu(r) => self.ppu.peek_spec(r),
            MappedAddress::ControllerPortA => self.port_a.current(),
            MappedAddress::ControllerPortB => self.port_b.current(),
            MappedAddress::Cartridge(a) => self.cartridge.cpu_peek_spec(a),
            _ => 0,
        }
    }

    open spec fn read_spec(&self, address: u16) -> u8 {
        match map_spec(address) {
            MappedAddress::Ram(a) => mirrored(self.ram@, a),
            MappedAddress::Ppu(r) => self.ppu.read_value(self.cartridge, r),
            MappedAddress::ControllerPortA => self.port_a.current(),
            MappedAddress::ControllerPortB => self.port_b.current(),
            MappedAddress::Cartridge(a) => self.cartridge.cpu_read_spec(a),
            _ => 0,
        }
    }

    open spec fn after_read(&self, address: u16) -> Self {
        match map_spec(address) {
            MappedAddress::Ppu(r) => {
                let (p, c) = self.ppu.after_read_register(self.cartridge, r);
                CpuBus { ppu: p, cartridge: c, ..*self }
            },
            MappedAddress::ControllerPortA => CpuBus { port_a: self.port_a.advanced(), ..*self },
            MappedAddress::ControllerPortB => CpuBus { port_b: self.port_b.advanced(), ..*self },
            MappedAddress::Cartridge(a) => CpuBus { cartridge: self.cartridge.after_cpu_read(a), ..*self },
            _ => *self,
        }
    }

    open spec fn after_write(&self, address: u16, value: u8) -> Self {
        match map_spec(address) {
            MappedAddress::Ram(a) => CpuBus { ram: self.ram.updated(a, value), ..*self },
            MappedAddress::Ppu(r) => {
                let (p, c) = self.ppu.after_write_register(self.cartridge, r, value);
                CpuBus { ppu: p, cartridge: c, ..*self }
            },
            MappedAddress::OamDma => {
                let (bytes, b) = page_reads(*self, value, 256);
                CpuBus { ppu: b.ppu.after_dma(bytes), ..b }
            },
            MappedAddress::ControllerPortA => if value & 0x01 != 0 {
                CpuBus { port_a: self.port_a.polled(), port_b: self.port_b.polled(), ..*self }
            } else {
                *self
            },
            MappedAddress::Cartridge(a) => CpuBus {
                cartridge: self.cartridge.after_cpu_write(a, value),
                ..*self
            },
            _ => *self,
        }
    }

    fn peek_byte(&self, address: u16) -> (r: u8) {
        match map_address(address) {
            MappedAddress::Ram(a) => self.ram.get(a),
            MappedAddress::Ppu(r) => self.ppu.peek_register(r),
            MappedAddress::ControllerPortA => self.port_a.peek(),
            MappedAddress::ControllerPortB => self.port_b.peek(),
            MappedAddress::Cartridge(a) => self.cartridge.cpu_peek(a),
            _ => 0,
        }
    }

    fn read_byte(&mut self, address: u16) -> (r: u8) {
        match map_address(address) {
            MappedAddress::Ram(a) => self.ram.get(a),
            MappedAddress::Ppu(r) => self.ppu.read_register(&mut self.cartridge, r),
            MappedAddress::ControllerPortA => self.port_a.read(),
            MappedAddress::ControllerPortB => self.port_b.read(),
            MappedAddress::Cartridge(a) => self.cartridge.cpu_read(a),
            _ => 0,
        }
    }

    fn write_byte(&mut self, address: u16, value: u8) {
        match map_address(address) {
            MappedAddress::Ram(a) => self.ram.set(a, value),
            MappedAddress::Ppu(r) => self.ppu.write_register(&mut self.cartridge, r, value),
            MappedAddress::OamDma => {
                let page_data = self.read_page(value);
                self.ppu.oam_dma(page_data.as_slice());
            },
            MappedAddress::ControllerPortA => {
                if value & 0x01 != 0 {
                    self.port_a.poll();
                    self.port_b.poll();
                }
            },
            MappedAddress::Cartridge(a) => self.cartridge.cpu_write(a, value),
            _ => {},
        }
    }
}

impl CpuBus {
    /// Reads the 256 bytes of `page` through the bus, in address order.
    fn read_page(&mut self, page: u8) -> (r: Vec<u8>)
        ensures
            (r@, *final(self)) == page_reads(*old(self), page, 256),
            r@.len() == 256,
    {
        let base = page as u16 * 256;
        let mut data: Vec<u8> = Vec::new();
        let mut i: u16 = 0;
        while i < 256
            invariant
                0 <= i <= 256,
                base == page as int * 256,
                (data@, *self) == page_reads(*old(self), page, i as nat),
                data@.len() == i,
            decreases 256 - i,
        {
            let byte = self.read_byte(base + i);
            data.push(byte);
            i = i + 1;
        }
        data
    }
}

/// Whether reads of page `page` have no side effects on the bus: system RAM
/// and cartridge space.
pub open spec fn quiet_page(page: u8) -> bool {
    page < 0x20 || page > 0x40
}

proof fn lemma_quiet_page_reads(bus: CpuBus, page: u8, n: nat)
    requires
        quiet_page(page),
        n <= 256,
    ensures
        page_reads(bus, page, n).1 == bus,
        page_reads(bus, page, n).0.len() == n,
        forall|i: int|
            0 <= i < n ==> #[trigger] page_reads(bus, page, n).0[i] == bus.peek_spec(
                (page as int * 256 + i) as u16,
            ),
    decreases n,
{
    if n > 0 {
        lemma_quiet_page_reads(bus, page, (n - 1) as nat);
        let address = (page as int * 256 + (n - 1)) as u16;
        assert(map_spec(address) matches MappedAddress::Ram(_) || map_spec(address) matches MappedAddress::Cartridge(_));
        match bus.cartridge {
            Cartridge::Empty(_) => {},
            Cartridge::Nrom128(_) => {},
            Cartridge::Nrom256(_) => {},
        }
    }
}

/// After an OAM DMA from a RAM or cartridge page P, OAM holds byte i of the
/// page at `(OAMADDR + i) mod 256`, for every i in 0..256.
pub proof fn lemma_oam_dma_copies_page(bus: CpuBus, page: u8, i: int)
    requires
        quiet_page(page),
        0 <= i < 256,
    ensures
        bus.after_write(0x4014, page).ppu.oam@[(bus.ppu.oam_addr.0 as int + i) % 256]
            == bus.peek_spec((page as int * 256 + i) as u16),
{
    lemma_quiet_page_reads(bus, page, 256);
    let (bytes, b) = page_reads(bus, page, 256);
    assert(b == bus);
    let oam = oam_after_dma(bus.ppu.oam@, bus.ppu.oam_addr.0, bytes);
    lemma_ram_exists::<256>(oam);
    assert(map_spec(0x4014) == MappedAddress::OamDma);
    let after = bus.after_write(0x4014, page);
    assert(after.ppu == bus.ppu.after_dma(bytes));
    assert(after.ppu.oam@ == oam);
    let j = (bus.ppu.oam_addr.0 as int + i) % 256;
    assert((j - bus.ppu.oam_addr.0 as int) % 256 == i);
    assert(oam[j] == bytes[i]);
}

} // verus!
