use vstd::prelude::*;
use image::{Rgb, RgbImage};

verus! {

/// An RGB image of the `image` crate, seen through its samples and size.
#[verifier::external_body]
pub struct Canvas {
    img: RgbImage,
}

/// The samples a canvas holds, row-major, three bytes per pixel.
pub uninterp spec fn canvas_bytes(c: Canvas) -> Seq<u8>;

/// The width and height, in pixels, a canvas was made with.
pub uninterp spec fn canvas_size(c: Canvas) -> (u32, u32);

impl Canvas {
    /// Relies on image::ImageBuffer::new: a black image of the given size
    /// with exactly `width * height * 3` zero samples; it panics when
    /// `3 * width`, or that times `height`, overflows usize.
    #[verifier::external_body]
    pub(crate) fn new(width: u32, height: u32) -> (r: Canvas)
        requires
            width * 3 <= usize::MAX,
            width * height * 3 <= usize::MAX,
        ensures
            canvas_size(r) == (width, height),
            canvas_bytes(r) == Seq::new((width * height * 3) as nat, |i: int| 0u8),
    {
        Canvas { img: RgbImage::new(width, height) }
    }

    /// Relies on image::ImageBuffer::put_pixel: inside the bounds it
    /// overwrites the three samples starting at `(y * width + x) * 3` and
    /// nothing else; it panics outside them, or where the samples end
    /// before that pixel.
    #[verifier::external_body]
    pub(crate) fn put_rgb(&mut self, x: u32, y: u32, color: [u8; 3])
        requires
            x < canvas_size(*old(self)).0,
            y < canvas_size(*old(self)).1,
            (y * canvas_size(*old(self)).0 + x) * 3 + 3 <= canvas_bytes(*old(self)).len(),
        ensures
            canvas_size(*final(self)) == canvas_size(*old(self)),
            canvas_bytes(*final(self)) == canvas_bytes(*old(self)).update(
                (y * canvas_size(*old(self)).0 + x) * 3,
                color[0],
            ).update((y * canvas_size(*old(self)).0 + x) * 3 + 1, color[1]).update(
                (y * canvas_size(*old(self)).0 + x) * 3 + 2,
                color[2],
            ),
    {
        self.img.put_pixel(x, y, Rgb(color))
    }

    /// Relies on image::ImageBuffer::into_raw: it hands back the samples.
    #[verifier::external_body]
    pub(crate) fn into_bytes(self) -> (r: Vec<u8>)
        ensures
            r@ == canvas_bytes(self),
    {
        self.img.into_raw()
    }
}

} // verus!
