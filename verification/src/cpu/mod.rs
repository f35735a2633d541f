//! The processor: its registers, its bus and its instruction set.

pub mod cpu;
pub mod laws;
pub mod machine;
pub mod memory_map;
pub mod register;
pub mod status_register;

pub use cpu::Cpu;
pub use memory_map::MemoryMap;
pub use register::Register;
pub use status_register::StatusRegister;
