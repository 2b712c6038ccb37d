//! The pixel buffer: an `image::RgbImage`, seen through its dimensions and
//! the row-major sequence of RGB triples it holds.
use vstd::prelude::*;

verus! {

/// One pixel: red, green and blue.
pub type RgbTriple = (u8, u8, u8);

/// An RGB image of 8-bit channels, held in an `image::RgbImage`.
#[verifier::external_body]
pub struct PixelBuffer {
    img: image::RgbImage,
}

/// The width and height of a buffer.
pub uninterp spec fn buffer_dims(b: PixelBuffer) -> (u32, u32);

/// The pixels of a buffer, row by row: the pixel at `(x, y)` stands at
/// `y * width + x`.
pub uninterp spec fn buffer_pixels(b: PixelBuffer) -> Seq<(u8, u8, u8)>;

/// A buffer with consistent dimensions and contents.
pub open spec fn buffer_wf(b: PixelBuffer) -> bool {
    buffer_pixels(b).len() == buffer_dims(b).0 * buffer_dims(b).1
}

/// The samples of a pixel sequence laid out one channel after another.
pub open spec fn flat_samples(px: Seq<RgbTriple>) -> Seq<u8> {
    Seq::new(
        3 * px.len(),
        |i: int|
            if i % 3 == 0 {
                px[i / 3].0
            } else if i % 3 == 1 {
                px[i / 3].1
            } else {
                px[i / 3].2
            },
    )
}

/// Relies on `image::ImageBuffer::new`: an image of the given dimensions
/// whose samples are all zero. It panics when `3 * width * height` overflows
/// `usize`.
#[verifier::external_body]
fn new_image(width: u32, height: u32) -> (r: PixelBuffer)
    requires
        3 * width * height <= usize::MAX,
    ensures
        buffer_dims(r) == (width, height),
        buffer_pixels(r) == Seq::new((width * height) as nat, |i: int| (0u8, 0u8, 0u8)),
{
    PixelBuffer { img: image::RgbImage::new(width, height) }
}

/// Relies on `image::ImageBuffer::put_pixel`: sets the pixel at `(x, y)` and
/// nothing else. It panics out of bounds.
#[verifier::external_body]
fn put_image_pixel(b: &mut PixelBuffer, x: u32, y: u32, px: RgbTriple)
    requires
        x < buffer_dims(*old(b)).0,
        y < buffer_dims(*old(b)).1,
    ensures
        buffer_dims(*final(b)) == buffer_dims(*old(b)),
        buffer_pixels(*final(b)) == buffer_pixels(*old(b)).update(
            y * buffer_dims(*old(b)).0 + x,
            px,
        ),
{
    b.img.put_pixel(x, y, image::Rgb([px.0, px.1, px.2]))
}

/// Relies on `image::ImageBuffer::as_raw`: the packed samples, three per
/// pixel in row-major order.
#[verifier::external_body]
fn image_samples(b: &PixelBuffer) -> (r: Vec<u8>)
    ensures
        r@ == flat_samples(buffer_pixels(*b)),
{
    b.img.as_raw().clone()
}

impl PixelBuffer {
    /// A black buffer of `width` by `height` pixels.
    pub fn new(width: u32, height: u32) -> (r: PixelBuffer)
        requires
            3 * width * height <= usize::MAX,
        ensures
            buffer_dims(r) == (width, height),
            buffer_wf(r),
            forall|i: int|
                0 <= i < width * height ==> #[trigger] buffer_pixels(r)[i] == (0u8, 0u8, 0u8),
    {
        new_image(width, height)
    }

    /// Writes `px` at column `x` of row `y`.
    pub fn put_pixel(&mut self, x: u32, y: u32, px: RgbTriple)
        requires
            x < buffer_dims(*old(self)).0,
            y < buffer_dims(*old(self)).1,
        ensures
            buffer_dims(*final(self)) == buffer_dims(*old(self)),
            buffer_pixels(*final(self)) == buffer_pixels(*old(self)).update(
                y * buffer_dims(*old(self)).0 + x,
                px,
            ),
    {
        put_image_pixel(self, x, y, px)
    }

    /// The samples of the buffer: red, green, blue of each pixel, row by row.
    pub fn to_raw(&self) -> (r: Vec<u8>)
        ensures
            r@ == flat_samples(buffer_pixels(*self)),
    {
        image_samples(self)
    }
}

} // verus!
