//! Pattern data.

pub mod sprite;
pub mod sprites;

pub use sprite::{Sprite, UNIT_SPRITE_LENGTH};
pub use sprites::Sprites;
