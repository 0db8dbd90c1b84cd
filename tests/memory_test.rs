use nes::bus::{Bus16, FlatMemory};
use nes::frame::Frame;
use nes::memory::{PaletteRam, Ram};

#[test]
fn memory_read_and_write_to_flat_memory() {
    let mut memory = FlatMemory::new();

    memory.write_byte(0x0000, 64);
    assert_eq!(memory.read_byte(0x0000), 64);

    memory.write_word(0x0100, 0xAABB);
    assert_eq!(memory.read_word(0x0100), 0xAABB);
    assert_eq!(memory.read_byte(0x0100), 0xBB);
    assert_eq!(memory.read_byte(0x0101), 0xAA);
}

#[test]
fn lib_read_and_write_to_flat_memory() {
    let mut memory = FlatMemory::new();

    memory.write_byte(0x0000, 64);
    assert_eq!(memory.read_byte(0x0000), 64);

    memory.write_word(0x0100, 0xAABB);
    assert_eq!(memory.read_word(0x0100), 0xAABB);
    assert_eq!(memory.read_byte(0x0100), 0xBB);
    assert_eq!(memory.read_byte(0x0101), 0xAA);
}

#[test]
fn word_access_wraps_at_top_of_memory() {
    let mut memory = FlatMemory::new();
    memory.write_word(0xFFFF, 0x1234);
    assert_eq!(memory.peek_byte(0xFFFF), 0x34);
    assert_eq!(memory.peek_byte(0x0000), 0x12);
    assert_eq!(memory.peek_word(0xFFFF), 0x1234);
}

#[test]
fn load_code_wraps_and_sets_reset_vector() {
    let mut memory = FlatMemory::new();
    memory.load_code(&[1, 2, 3], 0xFFFE, None);
    assert_eq!(memory.read_byte(0xFFFE), 1);
    assert_eq!(memory.read_byte(0xFFFF), 2);
    assert_eq!(memory.read_byte(0x0000), 3);
    memory.load_code(&[9], 0x0200, Some(0x0200));
    assert_eq!(memory.read_word(0xFFFC), 0x0200);
}

#[test]
fn palette_ram_mirroring() {
    let mut palette_ram = PaletteRam::new();
    for i in 0..32 {
        palette_ram.set(i, i as u8);
    }
    for i in 0..32 {
        if i == 0x00 || i == 0x04 || i == 0x08 || i == 0x0C {
            assert_eq!(palette_ram.get(i), (i + 16) as u8);
        } else {
            assert_eq!(palette_ram.get(i), i as u8);
        }
    }
}

#[test]
fn palette_background_mirror_writes_show_at_base() {
    let mut palette_ram = PaletteRam::new();
    palette_ram.set(0x14, 0x2A);
    assert_eq!(palette_ram.get(0x04), 0x2A);
    palette_ram.set(0x08, 0x11);
    assert_eq!(palette_ram.get(0x18), 0x11);
    palette_ram.set(0x11, 0x05);
    assert_eq!(palette_ram.get(0x01), 0);
}

#[test]
fn ram_mirrors_every_size() {
    let mut ram = Ram::<2048>::new();
    ram.set(0x0801, 7);
    assert_eq!(ram.get(0x0001), 7);
    assert_eq!(ram.get(0x1801), 7);
    assert_eq!(ram.as_slice().len(), 2048);
    let data = [3u8; 2048];
    ram.copy_from_slice(&data);
    assert_eq!(ram.get(0x7FF), 3);
}

#[test]
fn frame_write_and_clear() {
    let mut frame = Frame::new();
    assert_eq!(frame.data_rgb8().len(), 256 * 240 * 3);
    frame.write(1, 2, (10, 20, 30));
    let base = (2 * 256 + 1) * 3;
    assert_eq!(&frame.data_rgb8()[base..base + 3], &[10, 20, 30]);
    frame.clear_with((1, 2, 3));
    assert_eq!(&frame.data_rgb8()[0..6], &[1, 2, 3, 1, 2, 3]);
    assert_eq!(frame.data_rgb8()[256 * 240 * 3 - 1], 3);
}

#[test]
fn palette_addresses_repeat_every_32_bytes() {
    let mut palette_ram = PaletteRam::new();
    palette_ram.set(0x30, 7);
    assert_eq!(palette_ram.get(0x00), 7);
    palette_ram.set(0x20, 9);
    assert_eq!(palette_ram.get(0x10), 9);
    palette_ram.set(0x25, 3);
    assert_eq!(palette_ram.get(0x05), 3);
}
