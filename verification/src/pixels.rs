//! The pixel extractor: a decoded image becomes a flat buffer of RGB samples.

use vstd::prelude::*;
use image::DynamicImage;
use image::GenericImageView;
use image::Pixel;
use image::Rgba;

verus! {

/// `image::DynamicImage`, the decoded image. Nothing inside it is visible
/// here: the names below say what the extractor reads from it.
#[verifier::external_type_specification]
#[verifier::external_body]
pub struct ExDynamicImage(image::DynamicImage);

/// The number of pixel columns of `image`.
pub uninterp spec fn image_width(image: DynamicImage) -> u32;

/// The number of pixel rows of `image`.
pub uninterp spec fn image_height(image: DynamicImage) -> u32;

/// The pixels of `image` by column and row, each as 8-bit red, green, blue
/// and alpha.
pub uninterp spec fn image_pixels(image: DynamicImage) -> Map<(int, int), (u8, u8, u8, u8)>;

/// `DynamicImage::width`: the width of the underlying buffer. Not proved.
#[verifier::external_body]
fn width_of(image: &DynamicImage) -> (width: u32)
    ensures
        width == image_width(*image),
{
    image.width()
}

/// `DynamicImage::height`: the height of the underlying buffer. Not proved.
#[verifier::external_body]
fn height_of(image: &DynamicImage) -> (height: u32)
    ensures
        height == image_height(*image),
{
    image.height()
}

/// `GenericImageView::get_pixel` on a `DynamicImage`: the pixel at column `x`
/// and row `y`, converted to 8-bit RGBA. The call panics outside the image,
/// so the coordinates must lie inside it. Not proved.
#[verifier::external_body]
fn rgba_at(image: &DynamicImage, x: u32, y: u32) -> (rgba: [u8; 4])
    requires
        x < image_width(*image),
        y < image_height(*image),
    ensures
        (rgba[0], rgba[1], rgba[2], rgba[3]) == image_pixels(*image)[(x as int, y as int)],
{
    image.get_pixel(x, y).0
}

/// `Pixel::to_rgb` on an `Rgba<u8>`: red, green and blue are kept as they
/// are and alpha is dropped. Not proved.
#[verifier::external_body]
fn drop_alpha(rgba: [u8; 4]) -> (rgb: [u8; 3])
    ensures
        rgb[0] == rgba[0],
        rgb[1] == rgba[1],
        rgb[2] == rgba[2],
{
    Rgba(rgba).to_rgb().0
}

/// The red, green and blue samples of the pixel of `image` at column `x` and
/// row `y`, in that order.
pub open spec fn rgb_at(image: DynamicImage, x: int, y: int) -> Seq<u8> {
    let p = image_pixels(image)[(x, y)];
    seq![p.0, p.1, p.2]
}

/// Whether `data` is the pixel buffer of `image`: three bytes for each pixel,
/// rows from top to bottom and each row from left to right, with nothing
/// between them.
pub open spec fn is_buffer_of(image: DynamicImage, data: Seq<u8>) -> bool {
    let w = image_width(image) as int;
    let h = image_height(image) as int;
    &&& data.len() == w * h * 3
    &&& forall|x: int, y: int|
        0 <= x < w && 0 <= y < h ==> data.subrange(3 * (y * w + x), 3 * (y * w + x) + 3)
            == #[trigger] rgb_at(image, x, y)
}

/// In a grid `w` pixels wide, every pixel of a row above row `y` comes
/// before the first pixel of row `y`.
proof fn lemma_row_before(w: int, xx: int, yy: int, y: int)
    requires
        0 <= xx < w,
        0 <= yy < y,
    ensures
        0 <= yy * w + xx,
        yy * w + xx + 1 <= y * w,
{
    assert(0 <= yy * w) by (nonlinear_arith)
        requires
            0 <= yy,
            0 <= w,
    ;
    assert((yy + 1) * w <= y * w) by (nonlinear_arith)
        requires
            yy + 1 <= y,
            0 <= w,
    ;
    assert((yy + 1) * w == yy * w + w) by (nonlinear_arith);
}

/// The RGB samples of one image, with the dimensions they were taken at.
///
/// The buffer always holds exactly `width * height * 3` bytes.
pub struct PixelBuffer {
    width: u32,
    height: u32,
    data: Vec<u8>,
}

impl View for PixelBuffer {
    type V = Seq<u8>;

    closed spec fn view(&self) -> Seq<u8> {
        self.data@
    }
}

impl PixelBuffer {
    #[verifier::type_invariant]
    spec fn sized(self) -> bool {
        self.data@.len() == self.width * self.height * 3
    }

    /// The width, in pixels, that the buffer was taken at.
    pub closed spec fn spec_width(self) -> u32 {
        self.width
    }

    /// The height, in pixels, that the buffer was taken at.
    pub closed spec fn spec_height(self) -> u32 {
        self.height
    }

    /// Walks `image` row by row, each row from left to right, and keeps the
    /// red, green and blue sample of every pixel. An image without columns or
    /// without rows gives an empty buffer.
    pub fn from_image(image: &DynamicImage) -> (buffer: PixelBuffer)
        ensures
            buffer.spec_width() == image_width(*image),
            buffer.spec_height() == image_height(*image),
            is_buffer_of(*image, buffer@),
            image_width(*image) == 0 || image_height(*image) == 0 ==> buffer@ == Seq::<u8>::empty(),
    {
        let width = width_of(image);
        let height = height_of(image);
        let ghost w = width as int;
        let mut data: Vec<u8> = Vec::new();
        let mut y: u32 = 0;
        while y < height
            invariant
                width == image_width(*image),
                height == image_height(*image),
                w == width as int,
                y <= height,
                data@.len() == 3 * (y * w),
                forall|xx: int, yy: int|
                    0 <= xx < w && 0 <= yy < y ==> data@.subrange(
                        3 * (yy * w + xx),
                        3 * (yy * w + xx) + 3,
                    ) == #[trigger] rgb_at(*image, xx, yy),
            decreases height - y,
        {
            let mut x: u32 = 0;
            while x < width
                invariant
                    width == image_width(*image),
                    height == image_height(*image),
                    w == width as int,
                    y < height,
                    x <= width,
                    data@.len() == 3 * (y * w + x),
                    forall|xx: int, yy: int|
                        0 <= xx < w && 0 <= yy < y ==> data@.subrange(
                            3 * (yy * w + xx),
                            3 * (yy * w + xx) + 3,
                        ) == #[trigger] rgb_at(*image, xx, yy),
                    forall|xx: int|
                        0 <= xx < x ==> data@.subrange(3 * (y * w + xx), 3 * (y * w + xx) + 3)
                            == #[trigger] rgb_at(*image, xx, y as int),
                decreases width - x,
            {
                let rgb = drop_alpha(rgba_at(image, x, y));
                let ghost before = data@;
                data.push(rgb[0]);
                data.push(rgb[1]);
                data.push(rgb[2]);
                proof {
                    let at = 3 * (y * w + x);
                    assert(data@ =~= before + seq![rgb[0], rgb[1], rgb[2]]);
                    assert(data@.subrange(at, at + 3) =~= rgb_at(*image, x as int, y as int));
                    assert forall|xx: int, yy: int| 0 <= xx < w && 0 <= yy < y implies data@.subrange(
                        3 * (yy * w + xx),
                        3 * (yy * w + xx) + 3,
                    ) == #[trigger] rgb_at(*image, xx, yy) by {
                        lemma_row_before(w, xx, yy, y as int);
                        let lo = 3 * (yy * w + xx);
                        assert(data@.subrange(lo, lo + 3) =~= before.subrange(lo, lo + 3));
                    }
                    assert forall|xx: int| 0 <= xx < x + 1 implies data@.subrange(
                        3 * (y * w + xx),
                        3 * (y * w + xx) + 3,
                    ) == #[trigger] rgb_at(*image, xx, y as int) by {
                        if xx < x {
                            let lo = 3 * (y * w + xx);
                            assert(0 <= y * w) by (nonlinear_arith)
                                requires
                                    0 <= y,
                                    0 <= w,
                            ;
                            assert(data@.subrange(lo, lo + 3) =~= before.subrange(lo, lo + 3));
                        }
                    }
                }
                x += 1;
            }
            proof {
                assert((y + 1) * w == y * w + w) by (nonlinear_arith);
            }
            y += 1;
        }
        proof {
            assert(height * w * 3 == 3 * (height * w)) by (nonlinear_arith);
            assert(w * (height as int) == height * w) by (nonlinear_arith);
            if width == 0 || height == 0 {
                assert(w * (height as int) == 0) by (nonlinear_arith)
                    requires
                        w == 0 || height == 0,
                ;
                assert(data@ =~= Seq::<u8>::empty());
            }
        }
        PixelBuffer { width, height, data }
    }

    /// The width, in pixels, of the image that the buffer was taken from.
    pub fn width(&self) -> (width: u32)
        ensures
            width == self.spec_width(),
    {
        self.width
    }

    /// The height, in pixels, of the image that the buffer was taken from.
    pub fn height(&self) -> (height: u32)
        ensures
            height == self.spec_height(),
    {
        self.height
    }

    /// The samples: `width * height * 3` bytes.
    pub fn as_slice(&self) -> (bytes: &[u8])
        ensures
            bytes@ == self@,
            bytes@.len() == self.spec_width() * self.spec_height() * 3,
    {
        proof {
            use_type_invariant(self);
        }
        self.data.as_slice()
    }

    /// Gives up the buffer for its samples.
    pub fn into_bytes(self) -> (bytes: Vec<u8>)
        ensures
            bytes@ == self@,
            bytes@.len() == self.spec_width() * self.spec_height() * 3,
    {
        proof {
            use_type_invariant(&self);
        }
        self.data
    }
}

} // verus!
