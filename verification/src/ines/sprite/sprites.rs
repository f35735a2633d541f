//! All the patterns of a cartridge on one screen.

use super::sprite::Sprite;
use crate::display::canvas::{pixels_of, size_of, Canvas};
use crate::display::{tile, tiled, DISPLAY_HEIGHT, DISPLAY_WIDTH};
use crate::ppu::memory_map::NAME_LENGTH;
use vstd::prelude::*;

verus! {

/// A list of patterns that can be shown together.
pub trait Sprites {
    /// The patterns.
    spec fn patterns(&self) -> Seq<Sprite>;

    /// The picture of a screen that shows the patterns in their order, row
    /// by row, and is black behind the last of them. There is room for 960
    /// patterns.
    fn draw(&self) -> (canvas: Canvas)
        requires
            self.patterns().len() <= NAME_LENGTH,
            forall|i: int| 0 <= i < self.patterns().len() ==> (#[trigger] self.patterns()[i]).wf(),
        ensures
            size_of(canvas) == (DISPLAY_WIDTH, DISPLAY_HEIGHT),
            pixels_of(canvas) == tiled(|i: int| self.patterns()[i], self.patterns().len() as int),
    ;
}

impl Sprites for Vec<Sprite> {
    open spec fn patterns(&self) -> Seq<Sprite> {
        self@
    }

    fn draw(&self) -> (canvas: Canvas) {
        let mut image = Canvas::new(DISPLAY_WIDTH, DISPLAY_HEIGHT);
        let ghost cells = |i: int| self@[i];
        assert(pixels_of(image) =~= tiled(cells, 0));
        let mut i: usize = 0;
        while i < self.len()
            invariant
                i <= self@.len() <= NAME_LENGTH,
                cells == (|i: int| self@[i]),
                forall|i: int| 0 <= i < self@.len() ==> (#[trigger] self@[i]).wf(),
                size_of(image) == (DISPLAY_WIDTH, DISPLAY_HEIGHT),
                pixels_of(image) == tiled(cells, i as int),
            decreases self@.len() - i,
        {
            tile(&mut image, &self[i], i as u32, Ghost(cells));
            i += 1;
        }
        image
    }
}

} // verus!
