//! A pattern of eight by eight pixels.

use crate::binary::bit::Bit;
use crate::display::canvas::{all_black, pixels_of, size_of, Canvas};
use vstd::prelude::*;

verus! {

/// The bytes that one pattern takes in pattern ROM: eight for each of its
/// two planes.
pub const UNIT_SPRITE_LENGTH: usize = 16;

/// A pattern: eight rows from top to bottom.
#[derive(PartialEq, Eq, Debug)]
pub struct Sprite(pub Vec<Bit>);

/// The grey that a pixel of the given value is drawn in.
pub open spec fn grey(value: u8) -> (u8, u8, u8) {
    ((127 * value) as u8, (127 * value) as u8, (127 * value) as u8)
}

/// The rows of the pattern whose first byte stands at `point`. The first
/// eight bytes are one plane, a row each, and the next eight the other; a
/// pixel is the sum of its bits in the two planes.
pub open spec fn rows_at(rom: Seq<u8>, point: int) -> Seq<Bit> {
    Seq::new(8, |i: int| Bit::of(rom[point + i]).plus(Bit::of(rom[point + 8 + i])))
}

/// How many patterns are read from pattern ROM of `len` bytes: as many as
/// lie in it whole with at least one byte behind them.
pub open spec fn sprite_count(len: int) -> int {
    if len <= 0 {
        0
    } else {
        (len - 1) / 16
    }
}

/// Whether pixel `p` lies in the square of eight by eight pixels whose top
/// left corner is in column `left` and row `top`.
pub open spec fn in_square(p: (u32, u32), left: u32, top: u32) -> bool {
    left <= p.0 < left + 8 && top <= p.1 < top + 8
}

/// Whether pixel `p` of the square at (`left`, `top`) lies in one of the
/// first `rows` rows of the square, or in row `rows` in one of its first
/// `cols` columns.
pub open spec fn in_square_upto(p: (u32, u32), left: u32, top: u32, rows: int, cols: int) -> bool {
    in_square(p, left, top) && (p.1 - top < rows || (p.1 - top == rows && p.0 - left < cols))
}

impl Sprite {
    /// Whether the pattern has its eight rows and no pixel value above 2,
    /// the highest that two bits give.
    pub open spec fn wf(&self) -> bool {
        &&& self.0@.len() == 8
        &&& forall|y: int, x: int| 0 <= y < 8 && 0 <= x < 8 ==> (#[trigger] self.0@[y]@[x]) <= 2
    }

    /// The colour of the pixel in column `x` and row `y` of the pattern.
    pub open spec fn shade(&self, x: int, y: int) -> (u8, u8, u8) {
        grey(self.0@[y]@[x])
    }

    /// The picture `base` with the first pixels of the pattern drawn into
    /// the square at (`left`, `top`): its first `rows` rows, and the first
    /// `cols` pixels of the row after them.
    pub open spec fn stamped_upto(
        &self,
        base: Map<(u32, u32), (u8, u8, u8)>,
        left: u32,
        top: u32,
        rows: int,
        cols: int,
    ) -> Map<(u32, u32), (u8, u8, u8)> {
        Map::new(
            |p: (u32, u32)| base.dom().contains(p) || in_square_upto(p, left, top, rows, cols),
            |p: (u32, u32)|
                if in_square_upto(p, left, top, rows, cols) {
                    self.shade(p.0 - left, p.1 - top)
                } else {
                    base[p]
                },
        )
    }

    /// The picture `base` with the pattern drawn into the square at
    /// (`left`, `top`).
    pub open spec fn stamped(
        &self,
        base: Map<(u32, u32), (u8, u8, u8)>,
        left: u32,
        top: u32,
    ) -> Map<(u32, u32), (u8, u8, u8)> {
        Map::new(
            |p: (u32, u32)| base.dom().contains(p) || in_square(p, left, top),
            |p: (u32, u32)|
                if in_square(p, left, top) {
                    self.shade(p.0 - left, p.1 - top)
                } else {
                    base[p]
                },
        )
    }

    /// Whether the pattern has its eight rows and no pixel value above 2.
    pub fn is_whole(&self) -> (r: bool)
        ensures
            r == self.wf(),
    {
        if self.0.len() != 8 {
            return false;
        }
        let mut y: usize = 0;
        while y < 8
            invariant
                y <= 8,
                self.0@.len() == 8,
                forall|j: int, i: int|
                    0 <= j < y && 0 <= i < 8 ==> (#[trigger] self.0@[j]@[i]) <= 2,
            decreases 8 - y,
        {
            let row = self.0[y];
            if row.0 > 2 || row.1 > 2 || row.2 > 2 || row.3 > 2 || row.4 > 2 || row.5 > 2 || row.6
                > 2 || row.7 > 2 {
                assert(row@[0] == row.0 && row@[1] == row.1 && row@[2] == row.2 && row@[3] == row.3
                    && row@[4] == row.4 && row@[5] == row.5 && row@[6] == row.6 && row@[7]
                    == row.7);
                return false;
            }
            y += 1;
        }
        true
    }

    /// The patterns of pattern ROM in the order in which they stand. The
    /// place of a pattern is counted in sixteen bits.
    pub fn parse_sprites(raw: &Vec<u8>) -> (r: Vec<Sprite>)
        ensures
            r@.len() == sprite_count(raw@.len() as int),
            forall|k: int|
                0 <= k < r@.len() ==> (#[trigger] r@[k]).0@ == rows_at(raw@, (16 * k) % 0x1_0000),
            forall|k: int| 0 <= k < r@.len() ==> (#[trigger] r@[k]).wf(),
    {
        let mut sprites = Vec::<Sprite>::new();
        let mut i: usize = 0;
        while i < raw.len() && UNIT_SPRITE_LENGTH < raw.len() - i
            invariant
                i == 16 * sprites@.len(),
                sprites@.len() <= sprite_count(raw@.len() as int),
                i < raw@.len() && 16 < raw@.len() - i <==> sprites@.len() < sprite_count(
                    raw@.len() as int,
                ),
                forall|k: int|
                    0 <= k < sprites@.len() ==> (#[trigger] sprites@[k]).0@ == rows_at(
                        raw@,
                        (16 * k) % 0x1_0000,
                    ),
                forall|k: int| 0 <= k < sprites@.len() ==> (#[trigger] sprites@[k]).wf(),
            decreases raw@.len() - i,
        {
            let sprite = Sprite::parse(raw.as_slice(), (i % 0x1_0000) as u16);
            i += UNIT_SPRITE_LENGTH;
            sprites.push(sprite);
        }
        sprites
    }

    /// The pattern whose first byte stands at `point`. Its sixteen bytes
    /// have to lie in `rom`.
    pub fn parse(rom: &[u8], point: u16) -> (r: Sprite)
        requires
            point + 16 <= rom@.len(),
        ensures
            r.0@ == rows_at(rom@, point as int),
            r.wf(),
    {
        let point = point as usize;
        let half_length = UNIT_SPRITE_LENGTH / 2;
        let mut s: Vec<Bit> = Vec::new();
        let mut i: usize = 0;
        while i < half_length
            invariant
                half_length == 8,
                i <= 8,
                point <= 0xffff,
                point + 16 <= rom@.len(),
                s@.len() == i,
                forall|k: int| 0 <= k < i ==> (#[trigger] s@[k]) == rows_at(rom@, point as int)[k],
            decreases 8 - i,
        {
            let a = Bit::from(rom[point + i]);
            let b = Bit::from(rom[point + half_length + i]);
            s.push(a + b);
            i += 1;
        }
        assert(s@ =~= rows_at(rom@, point as int));
        let r = Sprite(s);
        assert(r.wf()) by {
            assert forall|y: int, x: int| 0 <= y < 8 && 0 <= x < 8 implies (#[trigger] r.0@[y]@[x])
                <= 2 by {
                let row = rows_at(rom@, point as int)[y];
                assert(row@[x] <= 2);
            }
        }
        r
    }

    /// Draws the pattern into the square of `canvas` whose top left corner
    /// is in column `left` and row `top`. The square has to lie in the
    /// picture.
    pub fn stamp(&self, canvas: &mut Canvas, left: u32, top: u32)
        requires
            self.wf(),
            left + 8 <= size_of(*old(canvas)).0,
            top + 8 <= size_of(*old(canvas)).1,
        ensures
            size_of(*final(canvas)) == size_of(*old(canvas)),
            pixels_of(*final(canvas)) == self.stamped(pixels_of(*old(canvas)), left, top),
    {
        let ghost base = pixels_of(*canvas);
        assert(pixels_of(*canvas) =~= self.stamped_upto(base, left, top, 0, 0));
        let mut y: u32 = 0;
        while y < 8
            invariant
                self.wf(),
                y <= 8,
                left + 8 <= size_of(*canvas).0,
                top + 8 <= size_of(*canvas).1,
                size_of(*canvas) == size_of(*old(canvas)),
                pixels_of(*canvas) == self.stamped_upto(base, left, top, y as int, 0),
            decreases 8 - y,
        {
            let row = self.0[y as usize];
            let mut x: u32 = 0;
            while x < 8
                invariant
                    self.wf(),
                    y < 8,
                    x <= 8,
                    row == self.0@[y as int],
                    left + 8 <= size_of(*canvas).0,
                    top + 8 <= size_of(*canvas).1,
                    size_of(*canvas) == size_of(*old(canvas)),
                    pixels_of(*canvas) == self.stamped_upto(base, left, top, y as int, x as int),
                decreases 8 - x,
            {
                assert(self.0@[y as int]@[x as int] <= 2);
                let c = 127 * row.get(x as usize);
                canvas.set(left + x, top + y, (c, c, c));
                assert(pixels_of(*canvas) =~= self.stamped_upto(
                    base,
                    left,
                    top,
                    y as int,
                    x as int + 1,
                ));
                x += 1;
            }
            assert(pixels_of(*canvas) =~= self.stamped_upto(base, left, top, y as int + 1, 0));
            y += 1;
        }
        assert(self.stamped_upto(base, left, top, 8, 0) =~= self.stamped(base, left, top));
    }

    /// Draws the pattern as `stamp` does, if it is whole and the square lies
    /// in the picture. If not, nothing is drawn and the answer is `false`.
    pub fn try_stamp(&self, canvas: &mut Canvas, left: u32, top: u32) -> (done: bool)
        ensures
            size_of(*final(canvas)) == size_of(*old(canvas)),
            done == (self.wf() && left + 8 <= size_of(*old(canvas)).0 && top + 8 <= size_of(
                *old(canvas),
            ).1),
            done ==> pixels_of(*final(canvas)) == self.stamped(pixels_of(*old(canvas)), left, top),
            !done ==> pixels_of(*final(canvas)) == pixels_of(*old(canvas)),
    {
        let (width, height) = canvas.size();
        if self.is_whole() && width >= 8 && left <= width - 8 && height >= 8 && top <= height - 8 {
            self.stamp(canvas, left, top);
            true
        } else {
            false
        }
    }

    /// A picture of 64 by 64 pixels with the pattern in its top left corner.
    pub fn draw(&self) -> (canvas: Canvas)
        requires
            self.wf(),
        ensures
            size_of(canvas) == (64u32, 64u32),
            pixels_of(canvas) == self.stamped(all_black(64, 64), 0, 0),
    {
        let mut image = Canvas::new(64, 64);
        self.stamp(&mut image, 0, 0);
        image
    }
}

/// Whether pixel `p` of a picture `width` pixels wide comes before the
/// pixel in column `x` and row `y`, going row by row.
pub open spec fn comes_before(p: (u32, u32), width: u32, x: int, y: int) -> bool {
    p.0 < width && (p.1 < y || (p.1 == y && p.0 < x))
}

impl Sprite {
    /// The picture of the pattern with every pixel `n` pixels wide and high,
    /// as far as it is drawn when the pixel in column `x` and row `y` is the
    /// next to be drawn: the pixels before that one show the pattern, the
    /// others are black.
    pub open spec fn enlarged_upto(&self, n: u32, x: int, y: int) -> Map<(u32, u32), (u8, u8, u8)> {
        Map::new(
            |p: (u32, u32)| p.0 < 8 * n && p.1 < 8 * n,
            |p: (u32, u32)|
                if comes_before(p, (8 * n) as u32, x, y) {
                    self.shade(p.0 as int / n as int, p.1 as int / n as int)
                } else {
                    (0u8, 0u8, 0u8)
                },
        )
    }

    /// The picture of the pattern with every pixel `n` pixels wide and high.
    pub open spec fn enlarged(&self, n: u32) -> Map<(u32, u32), (u8, u8, u8)> {
        Map::new(
            |p: (u32, u32)| p.0 < 8 * n && p.1 < 8 * n,
            |p: (u32, u32)| self.shade(p.0 as int / n as int, p.1 as int / n as int),
        )
    }

    /// A picture of the pattern alone, `n` times as large: every pixel of
    /// the pattern is a square of `n` by `n` pixels. The picture has to fit
    /// into memory.
    pub fn debug_draw(&self, n: u32) -> (canvas: Canvas)
        requires
            self.wf(),
            192 * n * n <= isize::MAX,
            8 * n <= u32::MAX,
        ensures
            size_of(canvas) == ((8 * n) as u32, (8 * n) as u32),
            pixels_of(canvas) == self.enlarged(n),
    {
        let side: u32 = 8 * n;
        assert(3 * side * side == 192 * n * n) by (nonlinear_arith)
            requires
                side == 8 * n,
        ;
        let mut image = Canvas::new(side, side);
        assert(pixels_of(image) =~= self.enlarged_upto(n, 0, 0));
        let mut y: u32 = 0;
        while y < side
            invariant
                self.wf(),
                side == 8 * n,
                y <= side,
                size_of(image) == (side, side),
                pixels_of(image) == self.enlarged_upto(n, 0, y as int),
            decreases side - y,
        {
            assert(y / n < 8) by (nonlinear_arith)
                requires
                    y < 8 * n,
            ;
            let row = self.0[(y / n) as usize];
            let mut x: u32 = 0;
            while x < side
                invariant
                    self.wf(),
                    n > 0,
                    side == 8 * n,
                    y < side,
                    x <= side,
                    y / n < 8,
                    row == self.0@[y as int / n as int],
                    size_of(image) == (side, side),
                    pixels_of(image) == self.enlarged_upto(n, x as int, y as int),
                decreases side - x,
            {
                assert(x / n < 8) by (nonlinear_arith)
                    requires
                        x < 8 * n,
                ;
                assert(self.0@[y as int / n as int]@[x as int / n as int] <= 2);
                let c = 127 * row.get((x / n) as usize);
                image.set(x, y, (c, c, c));
                assert(pixels_of(image) =~= self.enlarged_upto(n, x as int + 1, y as int));
                x += 1;
            }
            assert(pixels_of(image) =~= self.enlarged_upto(n, 0, y as int + 1));
            y += 1;
        }
        assert(self.enlarged_upto(n, 0, side as int) =~= self.enlarged(n));
        image
    }
}

impl Default for Sprite {
    fn default() -> (r: Self)
        ensures
            r.0@ == Seq::new(8, |i: int| Bit(0, 0, 0, 0, 0, 0, 0, 0)),
            r.wf(),
    {
        let mut rows: Vec<Bit> = Vec::new();
        let mut i: usize = 0;
        while i < 8
            invariant
                i <= 8,
                rows@.len() == i,
                forall|k: int| 0 <= k < i ==> (#[trigger] rows@[k]) == Bit(0, 0, 0, 0, 0, 0, 0, 0),
            decreases 8 - i,
        {
            rows.push(Bit::default());
            i += 1;
        }
        assert(rows@ =~= Seq::new(8, |i: int| Bit(0, 0, 0, 0, 0, 0, 0, 0)));
        Sprite(rows)
    }
}

impl From<Vec<Bit>> for Sprite {
    fn from(v: Vec<Bit>) -> (r: Self) {
        Sprite(v)
    }
}

impl vstd::std_specs::convert::FromSpecImpl<Vec<Bit>> for Sprite {
    open spec fn obeys_from_spec() -> bool {
        true
    }

    open spec fn from_spec(v: Vec<Bit>) -> Self {
        Sprite(v)
    }
}

} // verus!
