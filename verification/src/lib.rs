//! The computational core of an 8-bit cartridge console: a processor that
//! executes its instruction set against a memory-mapped bus, and the register
//! window through which it schedules writes into the graphics memory.

pub mod binary;
pub mod cpu;
pub mod display;
pub mod error;
pub mod ines;
pub mod ppu;
