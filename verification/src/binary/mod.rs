//! Bytes, words and bit rows.

pub mod bit;
pub mod display_binary;
pub mod text;
pub mod util;

pub use bit::Bit;
pub use display_binary::DisplayBinary;
pub use util::{lower_only, u16_to_u8u8, u8u8_to_u16, upper_only};
