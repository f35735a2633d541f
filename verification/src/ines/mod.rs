//! The cartridge: its header, its program and its pattern data.

pub mod header;
pub mod ines;
pub mod program;
pub mod sprite;

pub use header::{INESHeader, INES_HEADER_SIZE};
pub use ines::{parser, INES};
