pub mod bus;
pub mod cartridge;
pub mod cpu;
pub mod cpu_bus;
pub mod cpu_laws;
pub mod debugging;
pub mod disassembly;
pub mod frame;
pub mod input;
pub mod log_format;
pub mod memory;
pub mod nes;
pub mod opcodes;
pub mod palettes;
pub mod ppu;
pub mod ppu_registers;
pub mod rendering;
pub mod rom;
