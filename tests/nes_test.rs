use nes::bus::Bus16;
use nes::cartridge::{Cartridge, Mapper};
use nes::frame::Frame;
use nes::input::{ControllerPort, ControllerState, StandardController};
use nes::nes::NES;
use nes::ppu::{PpuRegister, PPU};
use nes::rom::{ConsoleType, Mirroring, RomFile, RomLoadError};

fn ines_image(prg_units: u8, chr_units: u8, flags6: u8, flags7: u8) -> Vec<u8> {
    let mut bytes = vec![0x4E, 0x45, 0x53, 0x1A, prg_units, chr_units, flags6, flags7];
    bytes.resize(16, 0);
    for i in 0..(prg_units as usize * 16384) {
        bytes.push((i % 251) as u8);
    }
    for i in 0..(chr_units as usize * 8192) {
        bytes.push((i % 13) as u8);
    }
    bytes
}

#[test]
fn rom_file_carves_prg_and_chr() {
    let rom = RomFile::load(ines_image(1, 1, 0x01, 0)).ok().unwrap();
    assert_eq!(rom.prg_rom.len(), 16384);
    assert_eq!(rom.chr_rom.len(), 8192);
    assert!(rom.trainer.is_none());
    assert_eq!(rom.header.mirroring(), Mirroring::Vertical);
    assert_eq!(rom.header.mapper_number(), 0);
    assert_eq!(rom.header.console_type(), ConsoleType::Nes);
    assert!(!rom.header.has_persistent_memory());
    assert_eq!(rom.prg_rom[300], (300 % 251) as u8);
}

#[test]
fn rom_file_rejects_malformed_images() {
    assert_eq!(RomFile::load(vec![0x4E, 0x45]).err(), Some(RomLoadError::MalformedRomFile));
    let mut bad_magic = ines_image(1, 1, 0, 0);
    bad_magic[3] = 0;
    assert_eq!(RomFile::load(bad_magic).err(), Some(RomLoadError::UnsupportedFormat));
    assert_eq!(RomFile::load(ines_image(1, 1, 0, 0x08)).err(), Some(RomLoadError::UnsupportedFormat));
    assert_eq!(RomFile::load(ines_image(1, 1, 0x10, 0)).err(), Some(RomLoadError::UnsupportedMapper));
    assert_eq!(RomFile::load(ines_image(1, 1, 0, 0x01)).err(), Some(RomLoadError::UnsupportedConsole));
    let mut short = ines_image(1, 1, 0, 0);
    short.pop();
    assert_eq!(RomFile::load(short).err(), Some(RomLoadError::MalformedRomFile));
    // A trainer that the file does not hold.
    assert_eq!(RomFile::load(ines_image(1, 1, 0x04, 0)).err(), Some(RomLoadError::MalformedRomFile));
}

#[test]
fn nrom_maps_prg_chr_and_vram() {
    let mut cart = Cartridge::load(ines_image(1, 1, 0x02, 0)).ok().unwrap();
    // 16 KiB PRG is mirrored at $C000.
    assert_eq!(cart.cpu_read(0x8005), 5);
    assert_eq!(cart.cpu_read(0xC005), 5);
    // PRG-RAM present.
    cart.cpu_write(0x6001, 0x77);
    assert_eq!(cart.cpu_peek(0x6001), 0x77);
    // ROM ignores writes.
    cart.cpu_write(0x8005, 0xEE);
    assert_eq!(cart.cpu_read(0x8005), 5);
    // CHR-ROM, read only.
    assert_eq!(cart.ppu_read(0x0014), (0x14 % 13) as u8);
    cart.ppu_write(0x0014, 0xFF);
    assert_eq!(cart.ppu_peek(0x0014), (0x14 % 13) as u8);
    // Horizontal mirroring: $2000 and $2400 share a nametable, $2800 does not.
    cart.ppu_write(0x2003, 0x42);
    assert_eq!(cart.ppu_read(0x2403), 0x42);
    assert_eq!(cart.ppu_read(0x2803), 0);
}

#[test]
fn nrom_vertical_mirroring_and_missing_prg_ram() {
    let mut cart = Cartridge::load(ines_image(2, 1, 0x01, 0)).ok().unwrap();
    cart.ppu_write(0x2005, 0x24);
    assert_eq!(cart.ppu_read(0x2805), 0x24);
    assert_eq!(cart.ppu_read(0x2405), 0);
    cart.cpu_write(0x6000, 1);
    assert_eq!(cart.cpu_read(0x6000), 0);
    assert_eq!(cart.cpu_read(0xC000), (16384 % 251) as u8);
}

#[test]
fn cartridge_rejects_unsupported_layouts() {
    assert_eq!(Cartridge::load(ines_image(3, 1, 0, 0)).err(), Some(RomLoadError::MalformedRomFile));
    assert_eq!(Cartridge::load(ines_image(1, 0, 0, 0)).err(), Some(RomLoadError::MalformedRomFile));
    assert_eq!(Cartridge::load(ines_image(1, 1, 0x08, 0)).err(), Some(RomLoadError::UnsupportedFormat));
}

#[test]
fn controller_strobe_shifts_out_buttons() {
    let mut nes = NES::new();
    let controller = StandardController { start: true, ..Default::default() };
    nes.update_controller_port_a(&controller);
    nes.bus.write_byte(0x4016, 1);
    nes.bus.write_byte(0x4016, 0);
    let expected = [0, 0, 0, 1, 0, 0, 0, 0];
    for e in expected {
        assert_eq!(nes.bus.read_byte(0x4016), e);
    }
    assert_eq!(nes.bus.read_byte(0x4016), 1);
    assert_eq!(nes.bus.read_byte(0x4016), 1);
}

#[test]
fn controller_port_default_and_update() {
    let mut port = ControllerPort::default();
    assert_eq!(port.peek(), 0);
    let controller = StandardController { a: true, right: true, ..Default::default() };
    assert_eq!(controller.read_buffer(), vec![1, 0, 0, 0, 0, 0, 0, 1]);
    assert_eq!(controller.overrun_default(), 1);
    port.update(&controller);
    assert_eq!(port.read(), 0);
    port.poll();
    assert_eq!(port.read(), 1);
    assert_eq!(port.peek(), 0);
}

#[test]
fn ppu_status_read_clears_vblank() {
    let mut ppu = PPU::new();
    let mut cart = Cartridge::default();
    ppu.ppu_status.set_vblank_started(true);
    assert_eq!(ppu.peek_register(PpuRegister::PpuStatus), 0x80);
    assert_eq!(ppu.read_register(&mut cart, PpuRegister::PpuStatus), 0x80);
    assert_eq!(ppu.read_register(&mut cart, PpuRegister::PpuStatus), 0x00);
}

#[test]
fn ppu_data_reads_are_buffered_below_palette() {
    let mut ppu = PPU::new();
    let mut cart = Cartridge::load(ines_image(1, 1, 0, 0)).ok().unwrap();
    // Write $99 to VRAM $2001.
    ppu.write_register(&mut cart, PpuRegister::PpuAddr, 0x20);
    ppu.write_register(&mut cart, PpuRegister::PpuAddr, 0x01);
    ppu.write_register(&mut cart, PpuRegister::PpuData, 0x99);
    ppu.write_register(&mut cart, PpuRegister::PpuAddr, 0x20);
    ppu.write_register(&mut cart, PpuRegister::PpuAddr, 0x01);
    assert_eq!(ppu.read_register(&mut cart, PpuRegister::PpuData), 0x00);
    assert_eq!(ppu.read_register(&mut cart, PpuRegister::PpuData), 0x99);
    // Palette reads are immediate; $3F10 mirrors $3F00.
    ppu.write_register(&mut cart, PpuRegister::PpuAddr, 0x3F);
    ppu.write_register(&mut cart, PpuRegister::PpuAddr, 0x10);
    ppu.write_register(&mut cart, PpuRegister::PpuData, 0x2C);
    ppu.write_register(&mut cart, PpuRegister::PpuAddr, 0x3F);
    ppu.write_register(&mut cart, PpuRegister::PpuAddr, 0x00);
    assert_eq!(ppu.read_register(&mut cart, PpuRegister::PpuData), 0x2C);
}

#[test]
fn ppu_address_increment_of_32() {
    let mut ppu = PPU::new();
    let mut cart = Cartridge::default();
    ppu.write_register(&mut cart, PpuRegister::PpuCtrl, 0x04);
    ppu.write_register(&mut cart, PpuRegister::PpuAddr, 0x21);
    ppu.write_register(&mut cart, PpuRegister::PpuAddr, 0x00);
    ppu.write_register(&mut cart, PpuRegister::PpuData, 0x00);
    assert_eq!(ppu.ppu_addr.bits(), 0x2120);
}

#[test]
fn oam_data_write_increments_address() {
    let mut ppu = PPU::new();
    let mut cart = Cartridge::default();
    ppu.write_register(&mut cart, PpuRegister::OamAddr, 0xFF);
    ppu.write_register(&mut cart, PpuRegister::OamData, 0x12);
    ppu.write_register(&mut cart, PpuRegister::OamData, 0x34);
    assert_eq!(ppu.oam.get(0xFF), 0x12);
    assert_eq!(ppu.oam.get(0x00), 0x34);
    ppu.write_register(&mut cart, PpuRegister::OamAddr, 0xFF);
    assert_eq!(ppu.peek_register(PpuRegister::OamData), 0x12);
}

#[test]
fn oam_dma_copies_ram_page_from_oam_address() {
    let mut nes = NES::new();
    for i in 0..256u16 {
        nes.bus.write_byte(0x0300 + i, i as u8);
    }
    nes.bus.write_byte(0x2003, 0x10);
    nes.bus.write_byte(0x4014, 0x03);
    for i in 0..256u16 {
        assert_eq!(nes.bus.ppu.oam.get((0x10 + i) % 256), i as u8);
    }
}

#[test]
fn ppu_raises_nmi_once_per_frame() {
    let mut ppu = PPU::new();
    let mut cart = Cartridge::default();
    let mut frame = Frame::new();
    ppu.write_register(&mut cart, PpuRegister::PpuCtrl, 0x80);
    ppu.tick(&mut cart, &mut frame, 241 * 341 - 1);
    assert!(!ppu.nmi_interrupt);
    assert!(ppu.in_vblank());
    ppu.tick(&mut cart, &mut frame, 1);
    assert!(ppu.nmi_interrupt);
    assert_eq!(ppu.peek_register(PpuRegister::PpuStatus) & 0x80, 0x80);
    assert!(ppu.take_interrupt());
    assert!(!ppu.take_interrupt());
    ppu.tick(&mut cart, &mut frame, 10 * 341);
    assert!(!ppu.nmi_interrupt);
    ppu.tick(&mut cart, &mut frame, 11 * 341);
    assert_eq!(ppu.y, 0);
    assert!(!ppu.in_vblank());
    assert_eq!(ppu.peek_register(PpuRegister::PpuStatus) & 0x80, 0);
}

#[test]
fn disabling_nmi_mid_vblank_raises_nothing() {
    let mut ppu = PPU::new();
    let mut cart = Cartridge::default();
    let mut frame = Frame::new();
    ppu.tick(&mut cart, &mut frame, 242 * 341);
    assert!(!ppu.nmi_interrupt);
    ppu.write_register(&mut cart, PpuRegister::PpuCtrl, 0x80);
    ppu.tick(&mut cart, &mut frame, 5 * 341);
    assert!(!ppu.nmi_interrupt);
}

#[test]
fn nes_runs_program_from_cartridge() {
    // PRG: LDA #$07; STA $00; JMP $8005 (spin), reset vector $8000.
    let mut image = ines_image(1, 1, 0, 0);
    let prg = 16;
    let code = [0xA9, 0x07, 0x85, 0x00, 0xEA, 0x4C, 0x05, 0x80];
    for (i, b) in code.iter().enumerate() {
        image[prg + i] = *b;
    }
    image[prg + 0x3FFC] = 0x00;
    image[prg + 0x3FFD] = 0x80;
    let cart = Cartridge::load(image).ok().unwrap();
    let mut nes = NES::new();
    nes.insert_cartridge(cart);
    assert_eq!(nes.get_pc(), 0x8000);
    nes.enable_debugger();
    nes.tick();
    nes.tick();
    assert_eq!(nes.bus.ram.get(0), 7);
    assert_eq!(nes.current_state().pc, 0x8004);
    assert_eq!(nes.dump_backtrace().len(), 2);
    assert!(!nes.jammed());
    nes.set_pc(0x8004);
    assert_eq!(nes.get_pc(), 0x8004);
    nes.advance_to_next_frame();
    assert!(nes.in_vblank());
    assert_eq!(nes.borrow_frame().data_rgb8().len(), 256 * 240 * 3);
}

#[test]
fn palette_mirror_through_cpu_bus() {
    let mut nes = NES::new();
    for (k, v) in [(0u16, 0x11u8), (1, 0x22), (2, 0x33), (3, 0x44)] {
        nes.bus.write_byte(0x2006, 0x3F);
        nes.bus.write_byte(0x2006, (0x10 + 4 * k) as u8);
        nes.bus.write_byte(0x2007, v);
        nes.bus.write_byte(0x2006, 0x3F);
        nes.bus.write_byte(0x2006, (4 * k) as u8);
        assert_eq!(nes.bus.read_byte(0x2007), v);
    }
    // Registers repeat every eight bytes up to $3FFF.
    nes.bus.write_byte(0x3FFE, 0x3F);
    nes.bus.write_byte(0x3FFE, 0x00);
    assert_eq!(nes.bus.peek_byte(0x2007), 0x11);
}

#[test]
fn oam_dma_copies_cartridge_page() {
    let cart = Cartridge::load(ines_image(1, 1, 0, 0)).ok().unwrap();
    let mut nes = NES::new();
    nes.insert_cartridge(cart);
    nes.bus.write_byte(0x4014, 0x80);
    for i in 0..256u16 {
        assert_eq!(nes.bus.ppu.oam.get(i), (i % 251) as u8);
    }
}

#[test]
fn unmapped_cpu_addresses_read_zero() {
    let mut nes = NES::new();
    nes.bus.write_byte(0x4000, 0x12);
    assert_eq!(nes.bus.read_byte(0x4000), 0);
    assert_eq!(nes.bus.read_byte(0x4014), 0);
    assert_eq!(nes.bus.read_byte(0x8000), 0);
    nes.bus.write_byte(0x0801, 0x5A);
    assert_eq!(nes.bus.read_byte(0x1801), 0x5A);
}

#[test]
fn status_read_resets_only_the_write_toggle() {
    let mut ppu = PPU::new();
    let mut cart = Cartridge::default();
    ppu.write_register(&mut cart, PpuRegister::PpuScroll, 0x12);
    ppu.write_register(&mut cart, PpuRegister::PpuAddr, 0x21);
    ppu.read_register(&mut cart, PpuRegister::PpuStatus);
    ppu.write_register(&mut cart, PpuRegister::PpuAddr, 0x3F);
    ppu.write_register(&mut cart, PpuRegister::PpuAddr, 0x04);
    assert_eq!(ppu.ppu_addr.bits(), 0x3F04);
    assert_eq!(ppu.ppu_scroll.offset_x(), 0x12);
    // $2005 and $2006 share the toggle.
    ppu.write_register(&mut cart, PpuRegister::PpuScroll, 0x34);
    ppu.write_register(&mut cart, PpuRegister::PpuAddr, 0x56);
    assert_eq!(ppu.ppu_scroll.offset_x(), 0x34);
    assert_eq!(ppu.ppu_addr.bits(), 0x3F56);
}

fn set_palette(ppu: &mut PPU, cart: &mut Cartridge, index: u8, value: u8) {
    ppu.write_register(cart, PpuRegister::PpuAddr, 0x3F);
    ppu.write_register(cart, PpuRegister::PpuAddr, index);
    ppu.write_register(cart, PpuRegister::PpuData, value);
}

#[test]
fn background_pixels_are_drawn_from_pattern_and_palette() {
    let mut ppu = PPU::new();
    let mut cart = Cartridge::load(ines_image(1, 1, 0, 0)).ok().unwrap();
    let mut frame = Frame::new();
    set_palette(&mut ppu, &mut cart, 0x00, 0x16);
    set_palette(&mut ppu, &mut cart, 0x02, 0x21);
    ppu.write_register(&mut cart, PpuRegister::PpuMask, 0x08);
    ppu.tick(&mut cart, &mut frame, 5);
    // Tile 0, row 0: low plane CHR[0] = 0, high plane CHR[8] = 8 (bit 3 set).
    let data = frame.data_rgb8();
    assert_eq!(&data[0..3], &[0xFF, 0x22, 0x00]);
    assert_eq!(&data[12..15], &[0x0F, 0xD7, 0xFF]);
    assert_eq!(&data[15..18], &[255, 0, 255]);
}

#[test]
fn covered_pixels_get_the_sprite_marker() {
    let mut ppu = PPU::new();
    let mut cart = Cartridge::default();
    let mut frame = Frame::new();
    ppu.write_register(&mut cart, PpuRegister::PpuMask, 0x10);
    ppu.write_register(&mut cart, PpuRegister::OamAddr, 0x00);
    for b in [0x00u8, 0x00, 0x00, 0x10] {
        ppu.write_register(&mut cart, PpuRegister::OamData, b);
    }
    // Every other sprite sits at (0, 0) too; move them off-screen.
    for _ in 4..256 {
        ppu.write_register(&mut cart, PpuRegister::OamData, 0xF0);
    }
    ppu.tick(&mut cart, &mut frame, 0x19);
    let data = frame.data_rgb8();
    assert_eq!(&data[0..3], &[255, 0, 255]);
    assert_eq!(&data[0x10 * 3..0x10 * 3 + 3], &[0, 0, 255]);
    assert_eq!(&data[0x18 * 3..0x18 * 3 + 3], &[255, 0, 255]);
}
