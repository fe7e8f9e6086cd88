//! The `paintdot` command: a black square canvas with one white pixel,
//! encoded as PNG in memory.
use vstd::prelude::*;
use crate::assets::NamedAsset;

verus! {

/// An RGB image of the `image` crate, with one byte per channel. It is held
/// in a field because Verus cannot declare `ImageBuffer` itself: its `Pixel`
/// bound names a trait that Verus does not know.
#[verifier::external_body]
pub struct Canvas {
    img: image::RgbImage,
}

#[verifier::external_type_specification]
#[verifier::external_body]
pub struct ExImageError(image::ImageError);

/// The raw samples of an RGB image: three per pixel, rows top to bottom,
/// pixels left to right.
pub uninterp spec fn canvas_samples(img: Canvas) -> Seq<u8>;

/// The width in pixels that an RGB image was made with.
pub uninterp spec fn canvas_width(img: Canvas) -> u32;

/// The height in pixels that an RGB image was made with.
pub uninterp spec fn canvas_height(img: Canvas) -> u32;

/// The PNG file that the `image` crate writes for an RGB image of the given
/// size and samples.
pub uninterp spec fn png_encoding(width: u32, height: u32, samples: Seq<u8>) -> Seq<u8>;

/// Relies on `image::ImageBuffer::new`: an image of the given size whose
/// samples are all zero. It panics only where the sample count overflows
/// `usize`.
#[verifier::external_body]
fn blank_canvas(width: u32, height: u32) -> (r: Canvas)
    requires
        3 * width * height <= usize::MAX,
    ensures
        canvas_width(r) == width,
        canvas_height(r) == height,
        canvas_samples(r) == Seq::new((3 * width * height) as nat, |i: int| 0u8),
{
    Canvas { img: image::RgbImage::new(width, height) }
}

/// Relies on `image::ImageBuffer::put_pixel`: the three samples of pixel
/// `(x, y)`, at `3 * (y * width + x)`, become `rgb`; it panics outside the
/// image.
#[verifier::external_body]
fn put_pixel(img: &mut Canvas, x: u32, y: u32, rgb: [u8; 3])
    requires
        x < canvas_width(*old(img)),
        y < canvas_height(*old(img)),
    ensures
        canvas_width(*final(img)) == canvas_width(*old(img)),
        canvas_height(*final(img)) == canvas_height(*old(img)),
        canvas_samples(*final(img)) == Seq::new(
            canvas_samples(*old(img)).len(),
            |i: int|
                {
                    let start = 3 * (y * canvas_width(*old(img)) + x);
                    if start <= i < start + 3 {
                        rgb@[i - start]
                    } else {
                        canvas_samples(*old(img))[i]
                    }
                },
        ),
{
    img.img.put_pixel(x, y, image::Rgb(rgb))
}

/// Relies on `image::ImageBuffer::write_to` with the PNG format, writing into
/// memory. Writing to a `Vec` does not fail, and the PNG encoder refuses an
/// 8-bit RGB image only where its width or height is zero.
#[verifier::external_body]
fn encode_png(img: &Canvas) -> (r: Result<Vec<u8>, image::ImageError>)
    ensures
        match r {
            Ok(bytes) => bytes@ == png_encoding(
                canvas_width(*img),
                canvas_height(*img),
                canvas_samples(*img),
            ),
            Err(_) => true,
        },
        0 < canvas_width(*img) <= SIDE && 0 < canvas_height(*img) <= SIDE ==> r is Ok,
{
    let mut bytes: Vec<u8> = Vec::new();
    match img.img.write_to(&mut std::io::Cursor::new(&mut bytes), image::ImageOutputFormat::Png) {
        Ok(()) => Ok(bytes),
        Err(e) => Err(e),
    }
}

/// The side of the square canvas, in pixels.
pub const SIDE: u32 = 256;

/// Why `paintdot` sent no picture.
#[derive(Debug, Clone, Copy, PartialEq, Eq, Structural)]
pub enum PaintError {
    /// A coordinate lies outside the canvas.
    CoordinateOutOfBounds,
}

/// The index of the first sample of pixel `(x, y)` in a row-major RGB image
/// of the given width.
pub open spec fn sample_start(width: int, x: int, y: int) -> int {
    3 * (y * width + x)
}

/// The three samples of pixel `(x, y)` in a row-major RGB image.
pub open spec fn pixel_of(samples: Seq<u8>, width: int, x: int, y: int) -> Seq<u8> {
    samples.subrange(sample_start(width, x, y), sample_start(width, x, y) + 3)
}

/// The samples of the square canvas that is black but for a white pixel at
/// `(x, y)`.
pub open spec fn dot_samples(x: int, y: int) -> Seq<u8> {
    Seq::new(
        (3 * SIDE * SIDE) as nat,
        |i: int|
            if sample_start(SIDE as int, x, y) <= i < sample_start(SIDE as int, x, y) + 3 {
                255u8
            } else {
                0u8
            },
    )
}

/// The canvas of `paintdot`: `SIDE` by `SIDE` pixels, black but for a white
/// pixel at `(x, y)`; refused where a coordinate lies outside.
pub fn dot_canvas(x: u32, y: u32) -> (r: Result<Canvas, PaintError>)
    ensures
        match r {
            Ok(img) => x < SIDE && y < SIDE && canvas_width(img) == SIDE && canvas_height(img)
                == SIDE && canvas_samples(img) == dot_samples(x as int, y as int),
            Err(e) => (x >= SIDE || y >= SIDE) && e == PaintError::CoordinateOutOfBounds,
        },
{
    if x >= SIDE || y >= SIDE {
        return Err(PaintError::CoordinateOutOfBounds);
    }
    let mut img = blank_canvas(SIDE, SIDE);
    put_pixel(&mut img, x, y, [255u8, 255u8, 255u8]);
    assert(canvas_samples(img) =~= dot_samples(x as int, y as int));
    Ok(img)
}

/// The attachment that the `paintdot` command sends: the PNG encoding of
/// the canvas of `dot_canvas`, named `output.png`. Every point of the canvas
/// gets one; every other point is refused.
pub fn paintdot(x: u32, y: u32) -> (r: Result<NamedAsset, PaintError>)
    ensures
        match r {
            Ok(a) => x < SIDE && y < SIDE && a.data@ == png_encoding(
                SIDE,
                SIDE,
                dot_samples(x as int, y as int),
            ) && a.filename@ == "output.png"@,
            Err(e) => (x >= SIDE || y >= SIDE) && e == PaintError::CoordinateOutOfBounds,
        },
        x < SIDE && y < SIDE ==> r is Ok,
{
    let img = match dot_canvas(x, y) {
        Ok(img) => img,
        Err(e) => return Err(e),
    };
    match encode_png(&img) {
        Ok(bytes) => Ok(NamedAsset::new(bytes, String::from_str("output.png"))),
        Err(_) => vstd::pervasive::unreached(),
    }
}

/// On the canvas of `paintdot`, pixel `(x, y)` is pure white and every other
/// pixel is pure black.
pub proof fn lemma_dot_pixels(x: int, y: int, px: int, py: int)
    requires
        0 <= x < SIDE,
        0 <= y < SIDE,
        0 <= px < SIDE,
        0 <= py < SIDE,
    ensures
        pixel_of(dot_samples(x, y), SIDE as int, px, py) == (if px == x && py == y {
            seq![255u8, 255u8, 255u8]
        } else {
            seq![0u8, 0u8, 0u8]
        }),
{
    let w = SIDE as int;
    let s = sample_start(w, px, py);
    let d = sample_start(w, x, y);
    assert(0 <= s && s + 3 <= 3 * w * w) by (nonlinear_arith)
        requires
            s == 3 * (py * w + px),
            0 <= px < w,
            0 <= py < w,
            w == 256,
    ;
    assert((s == d) == (px == x && py == y)) by (nonlinear_arith)
        requires
            s == 3 * (py * w + px),
            d == 3 * (y * w + x),
            0 <= px < w,
            0 <= py < w,
            0 <= x < w,
            0 <= y < w,
            w == 256,
    ;
    assert(s != d ==> (s + 3 <= d || d + 3 <= s)) by (nonlinear_arith)
        requires
            s == 3 * (py * w + px),
            d == 3 * (y * w + x),
    ;
    if px == x && py == y {
        assert(pixel_of(dot_samples(x, y), w, px, py) =~= seq![255u8, 255u8, 255u8]);
    } else {
        assert(pixel_of(dot_samples(x, y), w, px, py) =~= seq![0u8, 0u8, 0u8]);
    }
}

} // verus!
