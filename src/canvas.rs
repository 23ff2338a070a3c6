//! The canvas the game plots into: an RGB image buffer of the `image` crate,
//! held privately and reached through the functions below.
use vstd::prelude::*;

verus! {

/// An RGB raster whose pixels start at the background colour.
#[verifier::external_body]
pub struct Canvas {
    img: image::RgbImage,
}

/// The colour of each pixel of a canvas, by column and row, for every
/// position inside its width and height.
pub uninterp spec fn canvas_pixels(c: Canvas) -> Map<(u32, u32), (u8, u8, u8)>;

/// The width and height a canvas was made with.
pub uninterp spec fn canvas_size(c: Canvas) -> (u32, u32);

/// The colour of untouched pixels.
pub open spec fn background() -> (u8, u8, u8) {
    (0, 0, 0)
}

/// The colour of plotted pixels.
pub open spec fn foreground() -> (u8, u8, u8) {
    (255, 255, 255)
}

/// The positions of a `width` by `height` grid.
pub open spec fn in_grid(p: (u32, u32), width: u32, height: u32) -> bool {
    p.0 < width && p.1 < height
}

/// A grid of the given size whose every pixel has the background colour.
pub open spec fn blank(width: u32, height: u32) -> Map<(u32, u32), (u8, u8, u8)> {
    Map::new(|p: (u32, u32)| in_grid(p, width, height), |p: (u32, u32)| background())
}

/// The index in a row-major RGB byte buffer of channel `k` of pixel `p`.
pub open spec fn channel_index(p: (u32, u32), width: u32, k: int) -> int {
    3 * (p.1 * width + p.0) + k
}

/// Channel `k` of a colour.
pub open spec fn channel(colour: (u8, u8, u8), k: int) -> u8 {
    if k == 0 {
        colour.0
    } else if k == 1 {
        colour.1
    } else {
        colour.2
    }
}

impl Canvas {
    /// Relies on `image::ImageBuffer::new`, which fills the buffer with zeros
    /// and panics only when the buffer length `3 * width * height` overflows
    /// `usize`.
    #[verifier::external_body]
    pub(crate) fn blank_image(width: u32, height: u32) -> (r: Canvas)
        requires
            3 * width * height <= usize::MAX,
        ensures
            canvas_size(r) == (width, height),
            canvas_pixels(r) == blank(width, height),
    {
        Canvas { img: image::RgbImage::new(width, height) }
    }

    /// Relies on `image::ImageBuffer::put_pixel`, which panics only outside
    /// the buffer's bounds and otherwise sets that one pixel.
    #[verifier::external_body]
    pub(crate) fn put_foreground(&mut self, x: u32, y: u32)
        requires
            in_grid((x, y), canvas_size(*old(self)).0, canvas_size(*old(self)).1),
        ensures
            canvas_size(*final(self)) == canvas_size(*old(self)),
            canvas_pixels(*final(self)) == canvas_pixels(*old(self)).insert((x, y), foreground()),
    {
        self.img.put_pixel(x, y, image::Rgb([255, 255, 255]))
    }

    /// Relies on `image::ImageBuffer::dimensions`: the width and height the
    /// buffer was made with.
    #[verifier::external_body]
    pub(crate) fn image_dimensions(&self) -> (r: (u32, u32))
        ensures
            r == canvas_size(*self),
    {
        self.img.dimensions()
    }

    /// Relies on `image::ImageBuffer::get_pixel`, which panics only outside
    /// the buffer's bounds: the colour of pixel `(x, y)`.
    #[verifier::external_body]
    pub(crate) fn image_pixel(&self, x: u32, y: u32) -> (r: (u8, u8, u8))
        requires
            in_grid((x, y), canvas_size(*self).0, canvas_size(*self).1),
        ensures
            r == canvas_pixels(*self)[(x, y)],
    {
        let p = self.img.get_pixel(x, y);
        (p.0[0], p.0[1], p.0[2])
    }

    /// Relies on `image::ImageBuffer::into_raw`: the row-major buffer of three
    /// channel bytes per pixel that backs the image.
    #[verifier::external_body]
    pub(crate) fn image_into_raw(self) -> (r: Vec<u8>)
        ensures
            r@.len() == 3 * canvas_size(self).0 * canvas_size(self).1,
            forall|p: (u32, u32), k: int|
                in_grid(p, canvas_size(self).0, canvas_size(self).1) && 0 <= k < 3
                    ==> #[trigger] r@[channel_index(p, canvas_size(self).0, k)] == channel(
                    canvas_pixels(self)[p],
                    k,
                ),
    {
        self.img.into_raw()
    }

    /// A canvas of `width` by `height` pixels, all of the background colour;
    /// none when its buffer of three bytes per pixel would not fit in memory
    /// addresses.
    pub fn new(width: u32, height: u32) -> (r: Option<Canvas>)
        ensures
            r is Some <==> 3 * width * height <= usize::MAX,
            r is Some ==> canvas_size(r->Some_0) == (width, height) && canvas_pixels(r->Some_0) == blank(
                width,
                height,
            ),
    {
        assert(3 * width * height <= 3 * 0xffff_ffff * 0xffff_ffff) by (nonlinear_arith)
            requires width <= 0xffff_ffff, height <= 0xffff_ffff;
        let len: u128 = 3 * (width as u128) * (height as u128);
        if len <= usize::MAX as u128 {
            Some(Canvas::blank_image(width, height))
        } else {
            None
        }
    }

    /// The width and height of the canvas.
    pub fn dimensions(&self) -> (r: (u32, u32))
        ensures
            r == canvas_size(*self),
    {
        self.image_dimensions()
    }

    /// The colour of pixel `(x, y)`, or none outside the canvas.
    pub fn pixel(&self, x: u32, y: u32) -> (r: Option<(u8, u8, u8)>)
        ensures
            r is Some <==> in_grid((x, y), canvas_size(*self).0, canvas_size(*self).1),
            r is Some ==> r->Some_0 == canvas_pixels(*self)[(x, y)],
    {
        let (width, height) = self.image_dimensions();
        if x < width && y < height {
            Some(self.image_pixel(x, y))
        } else {
            None
        }
    }

    /// The canvas as a row-major buffer of red, green and blue bytes.
    pub fn into_raw(self) -> (r: Vec<u8>)
        ensures
            r@.len() == 3 * canvas_size(self).0 * canvas_size(self).1,
            forall|p: (u32, u32), k: int|
                in_grid(p, canvas_size(self).0, canvas_size(self).1) && 0 <= k < 3
                    ==> #[trigger] r@[channel_index(p, canvas_size(self).0, k)] == channel(
                    canvas_pixels(self)[p],
                    k,
                ),
    {
        self.image_into_raw()
    }
}

} // verus!
