//! The graphics side: its registers on the processor bus and its own memory.

pub mod io_register;
pub mod memory_map;
pub mod ppu;

pub use io_register::IORegister;
pub use ppu::PPU;
