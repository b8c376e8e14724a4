//! The image of one rendered frame in host memory.
//!
//! The GPU hands a frame back as rows of texels with padding at the end of
//! every row, the top row first. An image file wants the rows without the
//! padding and in the opposite order. This module turns the one into the
//! other.

use vstd::arithmetic::div_mod::lemma_fundamental_div_mod_converse;
use vstd::prelude::*;

verus! {

/// The image of one frame in host memory, eight bits for each of red,
/// green, blue and alpha. It is kept in an `image::ImageBuffer`, which is
/// not looked into: what it holds goes by the names [`image_size`] and
/// [`image_samples`].
#[verifier::external_body]
pub struct FrameImage {
    inner: image::ImageBuffer<image::Rgba<u8>, Vec<u8>>,
}

/// Width and height of an image, in pixels.
pub uninterp spec fn image_size(image: FrameImage) -> (nat, nat);

/// The samples of an image: row after row from the top, pixel after pixel
/// from the left, four bytes per pixel in the order red, green, blue, alpha.
pub uninterp spec fn image_samples(image: FrameImage) -> Seq<u8>;

/// A new image, made by `image::ImageBuffer::new`. The contract claims the
/// size asked for and four zero bytes for every pixel. The outside function
/// panics if the samples do not fit a vector, which `requires` leaves out.
#[verifier::external_body]
fn blank_image(width: u32, height: u32) -> (image: FrameImage)
    requires
        4 * width * height <= isize::MAX,
    ensures
        image_size(image) == (width as nat, height as nat),
        image_samples(image) == Seq::new((4 * width * height) as nat, |i: int| 0u8),
{
    FrameImage { inner: image::ImageBuffer::new(width, height) }
}

/// Sets one pixel with `image::ImageBuffer::put_pixel`. The contract claims
/// that the four samples of the pixel at column `x` of row `y` take the given
/// values, that no other sample changes, and that the size stays. The
/// outside function panics for a pixel outside the image, which `requires`
/// leaves out.
#[verifier::external_body]
fn put_pixel(image: &mut FrameImage, x: u32, y: u32, r: u8, g: u8, b: u8, a: u8)
    requires
        x < image_size(*old(image)).0,
        y < image_size(*old(image)).1,
    ensures
        image_size(*final(image)) == image_size(*old(image)),
        image_samples(*final(image)) == image_samples(*old(image)).update(
            4 * (y * image_size(*old(image)).0 + x),
            r,
        ).update(4 * (y * image_size(*old(image)).0 + x) + 1, g).update(
            4 * (y * image_size(*old(image)).0 + x) + 2,
            b,
        ).update(4 * (y * image_size(*old(image)).0 + x) + 3, a),
{
    image.inner.put_pixel(x, y, image::Rgba([r, g, b, a]));
}

/// The width of an image, read with `image::ImageBuffer::width`.
#[verifier::external_body]
fn image_width(image: &FrameImage) -> (width: u32)
    ensures
        width == image_size(*image).0,
{
    image.inner.width()
}

/// The height of an image, read with `image::ImageBuffer::height`.
#[verifier::external_body]
fn image_height(image: &FrameImage) -> (height: u32)
    ensures
        height == image_size(*image).1,
{
    image.inner.height()
}

/// The samples of an image, taken out with `image::ImageBuffer::into_raw`,
/// which hands over the vector that the image kept them in.
#[verifier::external_body]
fn image_into_raw(image: FrameImage) -> (samples: Vec<u8>)
    ensures
        samples@ == image_samples(image),
{
    image.inner.into_raw()
}

/// Where in the data read back from the GPU sample `c` of the pixel at column
/// `x` of output row `y` lies: rows are `aligned_width` texels long and
/// output row 0 is the last row of the data.
pub open spec fn source_index(x: int, y: int, c: int, height: int, aligned_width: int) -> int {
    4 * (x + (height - 1 - y) * aligned_width) + c
}

/// The samples of the image that is cut out of `data`: the first `width`
/// texels of every row, rows in reverse order.
pub open spec fn flipped_cropped(data: Seq<u8>, width: int, height: int, aligned_width: int) -> Seq<
    u8,
> {
    Seq::new(
        (4 * width * height) as nat,
        |i: int| data[source_index((i / 4) % width, (i / 4) / width, i % 4, height, aligned_width)],
    )
}

/// Whether an image of this size can be held: its samples fit a vector.
pub open spec fn holdable(width: int, height: int) -> bool {
    4 * width * height <= isize::MAX
}

proof fn lemma_source_in_bounds(x: int, y: int, c: int, width: int, height: int, aligned: int)
    requires
        0 <= x < width <= aligned,
        0 <= y < height,
        0 <= c < 4,
    ensures
        0 <= source_index(x, y, c, height, aligned) < 4 * aligned * height,
        0 <= (height - 1 - y) * aligned <= (height - 1) * aligned,
        4 * (y * width + x) + 3 < 4 * width * height,
        0 <= y * width,
{
    assert(0 <= (height - 1 - y) * aligned <= (height - 1) * aligned) by (nonlinear_arith)
        requires
            0 <= y < height,
            0 <= aligned,
    ;
    assert((height - 1) * aligned + aligned == height * aligned) by (nonlinear_arith);
    assert(4 * (aligned * height) == 4 * aligned * height) by (nonlinear_arith);
    assert(0 <= y * width <= (height - 1) * width) by (nonlinear_arith)
        requires
            0 <= y < height,
            0 <= width,
    ;
    assert((height - 1) * width + width == height * width) by (nonlinear_arith);
    assert(4 * (width * height) == 4 * width * height) by (nonlinear_arith);
}

impl FrameImage {
    /// Tells whether an image of this size can be held.
    pub fn fits(width: u32, height: u32) -> (fits: bool)
        ensures
            fits == holdable(width as int, height as int),
    {
        assert(width * height <= 0xffff_ffff * 0xffff_ffff) by (nonlinear_arith)
            requires
                width <= 0xffff_ffff,
                height <= 0xffff_ffff,
        ;
        assert(4 * width * height == 4 * (width * height)) by (nonlinear_arith);
        let pixels: u64 = width as u64 * height as u64;
        pixels <= isize::MAX as u64 / 4
    }

    /// Cuts the image of a frame out of the data read back from the GPU.
    ///
    /// `data` holds `height` rows of `aligned_width` texels, four bytes each,
    /// the top row of the GPU image first. The result holds the first `width`
    /// texels of every row, and its row 0 is the last row of the data.
    pub fn from_readback(data: &Vec<u8>, width: u32, height: u32, aligned_width: u32) -> (image:
        FrameImage)
        requires
            width <= aligned_width,
            data@.len() == 4 * aligned_width * height,
            holdable(width as int, height as int),
        ensures
            image_size(image) == (width as nat, height as nat),
            image_samples(image) == flipped_cropped(
                data@,
                width as int,
                height as int,
                aligned_width as int,
            ),
    {
        let mut image = blank_image(width, height);
        let total = data.len();
        let ghost wanted = flipped_cropped(
            data@,
            width as int,
            height as int,
            aligned_width as int,
        );
        let mut y: u32 = 0;
        while y < height
            invariant
                y <= height,
                width <= aligned_width,
                data@.len() == 4 * aligned_width * height,
                data@.len() == total,
                image_size(image) == (width as nat, height as nat),
                image_samples(image).len() == 4 * width * height,
                wanted == flipped_cropped(
                    data@,
                    width as int,
                    height as int,
                    aligned_width as int,
                ),
                forall|i: int|
                    0 <= i < 4 * (y * width) ==> #[trigger] image_samples(image)[i] == wanted[i],
            decreases height - y,
        {
            let mut x: u32 = 0;
            while x < width
                invariant
                    x <= width,
                    y < height,
                    width <= aligned_width,
                    data@.len() == 4 * aligned_width * height,
                    data@.len() == total,
                    image_size(image) == (width as nat, height as nat),
                    image_samples(image).len() == 4 * width * height,
                    wanted == flipped_cropped(
                        data@,
                        width as int,
                        height as int,
                        aligned_width as int,
                    ),
                    forall|i: int|
                        0 <= i < 4 * (y * width + x) ==> #[trigger] image_samples(image)[i]
                            == wanted[i],
                decreases width - x,
            {
                proof {
                    lemma_source_in_bounds(
                        x as int,
                        y as int,
                        3,
                        width as int,
                        height as int,
                        aligned_width as int,
                    );
                    lemma_fundamental_div_mod_converse(
                        y * width + x,
                        width as int,
                        y as int,
                        x as int,
                    );
                }
                let row: usize = (height - 1 - y) as usize * aligned_width as usize;
                let idx: usize = 4 * (x as usize + row);
                let ghost before = image_samples(image);
                let ghost at = 4 * (y * width + x);
                put_pixel(&mut image, x, y, data[idx], data[idx + 1], data[idx + 2], data[idx + 3]);
                proof {
                    assert forall|i: int| 0 <= i < at + 4 implies #[trigger] image_samples(image)[i]
                        == wanted[i] by {
                        if i >= at {
                            assert(i / 4 == y * width + x);
                            assert(i % 4 == i - at);
                        }
                    }
                }
                x = x + 1;
            }
            proof {
                assert(4 * (y * width + width) == 4 * ((y + 1) * width)) by (nonlinear_arith);
            }
            y = y + 1;
        }
        proof {
            assert(4 * (height * width) == 4 * width * height) by (nonlinear_arith);
            assert(image_samples(image) =~= wanted);
        }
        image
    }

    /// The width of the image in pixels.
    pub fn width(&self) -> (width: u32)
        ensures
            width == image_size(*self).0,
    {
        image_width(self)
    }

    /// The height of the image in pixels.
    pub fn height(&self) -> (height: u32)
        ensures
            height == image_size(*self).1,
    {
        image_height(self)
    }

    /// The samples of the image, row after row from the top, four bytes per
    /// pixel.
    pub fn into_raw(self) -> (samples: Vec<u8>)
        ensures
            samples@ == image_samples(self),
    {
        image_into_raw(self)
    }
}

} // verus!
