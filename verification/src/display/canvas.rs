//! The picture that is drawn on: an RGB image of the `image` crate.

use vstd::prelude::*;

verus! {

/// A picture in red, green and blue, eight bits each. It is an
/// `image::RgbImage`, of which the verifier sees nothing: what is known of it
/// is what `pixels_of` and `size_of` say.
#[verifier::external_body]
pub struct Canvas {
    image: image::RgbImage,
}

/// The colour of each pixel of a picture, by column and row.
pub uninterp spec fn pixels_of(canvas: Canvas) -> Map<(u32, u32), (u8, u8, u8)>;

/// The width and the height with which a picture was made.
pub uninterp spec fn size_of(canvas: Canvas) -> (u32, u32);

/// The pixels of a picture of the given size that is black all over.
pub open spec fn all_black(width: u32, height: u32) -> Map<(u32, u32), (u8, u8, u8)> {
    Map::new(|p: (u32, u32)| p.0 < width && p.1 < height, |p: (u32, u32)| (0u8, 0u8, 0u8))
}

/// Whether `raw` holds the pixels `pixels` of a picture of the given size
/// row by row, three bytes for each pixel: red, green, blue.
pub open spec fn is_raw_of(
    raw: Seq<u8>,
    size: (u32, u32),
    pixels: Map<(u32, u32), (u8, u8, u8)>,
) -> bool {
    &&& raw.len() == 3 * size.0 * size.1
    &&& forall|x: u32, y: u32|
        x < size.0 && y < size.1 ==> (
        raw[3 * (y * size.0 + x)],
        raw[3 * (y * size.0 + x) + 1],
        raw[3 * (y * size.0 + x) + 2],
    ) == #[trigger] pixels[(x, y)]
}

/// `ImageBuffer::new`: a picture of `width` by `height` pixels whose samples
/// are all zero. It panics when the three samples of every pixel are more
/// than a vector can hold, which the precondition excludes.
#[verifier::external_body]
fn blank(width: u32, height: u32) -> (canvas: Canvas)
    requires
        3 * width * height <= isize::MAX,
    ensures
        size_of(canvas) == (width, height),
        pixels_of(canvas) == all_black(width, height),
{
    Canvas { image: image::ImageBuffer::new(width, height) }
}

/// `ImageBuffer::get_pixel_mut`, assigned to: the pixel in column `x` and
/// row `y` takes the colour; every other pixel and the size stay. It panics
/// outside the picture, which the precondition excludes.
#[verifier::external_body]
fn put(canvas: &mut Canvas, x: u32, y: u32, colour: (u8, u8, u8))
    requires
        x < size_of(*old(canvas)).0,
        y < size_of(*old(canvas)).1,
    ensures
        size_of(*final(canvas)) == size_of(*old(canvas)),
        pixels_of(*final(canvas)) == pixels_of(*old(canvas)).insert((x, y), colour),
{
    *canvas.image.get_pixel_mut(x, y) = image::Rgb([colour.0, colour.1, colour.2]);
}

/// `ImageBuffer::dimensions`: the width and the height.
#[verifier::external_body]
fn dimensions(canvas: &Canvas) -> (size: (u32, u32))
    ensures
        size == size_of(*canvas),
{
    canvas.image.dimensions()
}

/// `ImageBuffer::into_raw`: the samples of the picture, row by row, three
/// for each pixel.
#[verifier::external_body]
fn raw(canvas: Canvas) -> (samples: Vec<u8>)
    ensures
        is_raw_of(samples@, size_of(canvas), pixels_of(canvas)),
{
    canvas.image.into_raw()
}

impl Canvas {
    /// A black picture of `width` by `height` pixels.
    pub fn new(width: u32, height: u32) -> (canvas: Canvas)
        requires
            3 * width * height <= isize::MAX,
        ensures
            size_of(canvas) == (width, height),
            pixels_of(canvas) == all_black(width, height),
    {
        blank(width, height)
    }

    /// Gives the pixel in column `x` and row `y` the colour. A pixel outside
    /// the picture is left out: then nothing changes and the answer is
    /// `false`.
    pub fn set(&mut self, x: u32, y: u32, colour: (u8, u8, u8)) -> (done: bool)
        ensures
            size_of(*final(self)) == size_of(*old(self)),
            done == (x < size_of(*old(self)).0 && y < size_of(*old(self)).1),
            done ==> pixels_of(*final(self)) == pixels_of(*old(self)).insert((x, y), colour),
            !done ==> pixels_of(*final(self)) == pixels_of(*old(self)),
    {
        let (width, height) = dimensions(self);
        if x < width && y < height {
            put(self, x, y, colour);
            true
        } else {
            false
        }
    }

    /// The width and the height of the picture.
    pub fn size(&self) -> (size: (u32, u32))
        ensures
            size == size_of(*self),
    {
        dimensions(self)
    }

    /// The bytes of the picture, row by row, three for each pixel: red,
    /// green, blue.
    pub fn into_raw(self) -> (samples: Vec<u8>)
        ensures
            is_raw_of(samples@, size_of(self), pixels_of(self)),
    {
        raw(self)
    }
}

} // verus!
