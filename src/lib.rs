//! A cycle-driven NES emulator core: 6502 CPU, PPU, APU, cartridge mappers,
//! controller and the buses that join them.

pub mod apu;
pub mod bits;
pub mod console;
pub mod controller;
pub mod cpu;
pub mod ines;
pub mod mapper;
pub mod mem;
pub mod opcode;
pub mod ppu;
pub mod savefile;
pub mod serde;
pub mod state;
