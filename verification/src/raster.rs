//! The pixel store behind the canvas: an RGBA image buffer.

use image::{ImageBuffer, Rgba};
use vstd::prelude::*;

verus! {

/// The image library's RGBA pixel buffer, held opaquely: its pixels are
/// known only through [`buffer_pixels`].
#[verifier::external_body]
pub struct PixelBuffer {
    inner: ImageBuffer<Rgba<u8>, Vec<u8>>,
}

/// A colour as red, green, blue and opacity.
pub type Color = (u8, u8, u8, u8);

/// The pixels that a buffer holds: one colour for every position
/// `(x, y)` inside its width and height, and none outside.
pub uninterp spec fn buffer_pixels(buffer: PixelBuffer) -> Map<(int, int), Color>;

/// The positions of a grid of the given width and height.
pub open spec fn grid(width: int, height: int) -> Set<(int, int)> {
    Set::new(|p: (int, int)| 0 <= p.0 < width && 0 <= p.1 < height)
}

/// `ImageBuffer::new`: a buffer of the given size in which every channel
/// of every pixel is zero. It cannot be built when its four bytes per
/// pixel exceed what a vector can hold.
#[verifier::external_body]
pub(crate) fn new_buffer(width: u32, height: u32) -> (buffer: PixelBuffer)
    requires
        4 * width * height <= isize::MAX,
    ensures
        buffer_pixels(buffer).dom() == grid(width as int, height as int),
        forall|p: (int, int)| #[trigger]
            buffer_pixels(buffer).dom().contains(p) ==> buffer_pixels(buffer)[p] == (
                0u8,
                0u8,
                0u8,
                0u8,
            ),
{
    PixelBuffer { inner: ImageBuffer::new(width, height) }
}

/// `ImageBuffer::put_pixel`: overwrites the pixel at `(x, y)`, which must
/// lie inside the buffer, and no other.
#[verifier::external_body]
pub(crate) fn put_pixel(buffer: &mut PixelBuffer, x: u32, y: u32, color: Color)
    requires
        buffer_pixels(*old(buffer)).dom().contains((x as int, y as int)),
    ensures
        buffer_pixels(*final(buffer)) == buffer_pixels(*old(buffer)).insert(
            (x as int, y as int),
            color,
        ),
{
    buffer.inner.put_pixel(x, y, Rgba([color.0, color.1, color.2, color.3]));
}

/// `ImageBuffer::get_pixel`: the pixel at `(x, y)`, which must lie inside
/// the buffer.
#[verifier::external_body]
pub(crate) fn get_pixel(buffer: &PixelBuffer, x: u32, y: u32) -> (color: Color)
    requires
        buffer_pixels(*buffer).dom().contains((x as int, y as int)),
    ensures
        color == buffer_pixels(*buffer)[(x as int, y as int)],
{
    let p = buffer.inner.get_pixel(x, y);
    (p.0[0], p.0[1], p.0[2], p.0[3])
}

} // verus!
