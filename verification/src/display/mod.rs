//! The screen: 32 by 30 patterns of eight by eight pixels.

pub mod canvas;

use crate::ines::sprite::Sprite;
use crate::ppu::memory_map::NAME_LENGTH;
use canvas::{pixels_of, size_of, Canvas};
use vstd::prelude::*;

verus! {

/// The width of the screen in pixels.
pub const DISPLAY_WIDTH: u32 = 256;

/// The height of the screen in pixels.
pub const DISPLAY_HEIGHT: u32 = 240;

/// The cell of the screen in which pixel `p` lies. The cells are counted
/// row by row, 32 to a row.
pub open spec fn cell_of(p: (u32, u32)) -> int {
    (p.1 / 8) * 32 + p.0 / 8
}

/// The screen on which the first `count` cells show the patterns that
/// `cells` gives for them, and the others are black.
pub open spec fn tiled(cells: spec_fn(int) -> Sprite, count: int) -> Map<(u32, u32), (u8, u8, u8)> {
    Map::new(
        |p: (u32, u32)| p.0 < DISPLAY_WIDTH && p.1 < DISPLAY_HEIGHT,
        |p: (u32, u32)|
            if cell_of(p) < count {
                cells(cell_of(p)).shade((p.0 % 8) as int, (p.1 % 8) as int)
            } else {
                (0u8, 0u8, 0u8)
            },
    )
}

/// Draws `sprite` into cell `i` of a screen on which the cells before `i`
/// are drawn already.
pub(crate) fn tile(
    canvas: &mut Canvas,
    sprite: &Sprite,
    i: u32,
    Ghost(cells): Ghost<spec_fn(int) -> Sprite>,
)
    requires
        i < NAME_LENGTH,
        sprite.wf(),
        cells(i as int) == *sprite,
        size_of(*old(canvas)) == (DISPLAY_WIDTH, DISPLAY_HEIGHT),
        pixels_of(*old(canvas)) == tiled(cells, i as int),
    ensures
        size_of(*final(canvas)) == (DISPLAY_WIDTH, DISPLAY_HEIGHT),
        pixels_of(*final(canvas)) == tiled(cells, i + 1),
{
    let offset_x = i % (DISPLAY_WIDTH / 8);
    let offset_y = i / (DISPLAY_WIDTH / 8);
    sprite.stamp(canvas, offset_x * 8, offset_y * 8);
    assert(pixels_of(*canvas) =~= tiled(cells, i + 1));
}

/// The screen.
#[derive(PartialEq, Eq, Debug)]
pub struct Display();

impl Display {
    /// The picture of a screen whose cells show `sprites`, row by row.
    pub fn draw(sprites: [&Sprite; NAME_LENGTH]) -> (canvas: Canvas)
        requires
            forall|i: int| 0 <= i < NAME_LENGTH ==> (#[trigger] sprites@[i]).wf(),
        ensures
            size_of(canvas) == (DISPLAY_WIDTH, DISPLAY_HEIGHT),
            pixels_of(canvas) == tiled(|i: int| *sprites@[i], NAME_LENGTH as int),
    {
        let mut image = Canvas::new(DISPLAY_WIDTH, DISPLAY_HEIGHT);
        let ghost cells = |i: int| *sprites@[i];
        assert(pixels_of(image) =~= tiled(cells, 0));
        let mut i: usize = 0;
        while i < NAME_LENGTH
            invariant
                i <= NAME_LENGTH,
                cells == (|i: int| *sprites@[i]),
                forall|i: int| 0 <= i < NAME_LENGTH ==> (#[trigger] sprites@[i]).wf(),
                size_of(image) == (DISPLAY_WIDTH, DISPLAY_HEIGHT),
                pixels_of(image) == tiled(cells, i as int),
            decreases NAME_LENGTH - i,
        {
            tile(&mut image, sprites[i], i as u32, Ghost(cells));
            i += 1;
        }
        image
    }
}

} // verus!
