//! The picture that the machine shows: 64 columns by 32 rows of single
//! bits.
//!
//! An image is 256 bytes, row after row from the top, eight pixels to a
//! byte, the leftmost pixel in the most significant bit. [`Frame`] owns
//! such an image; [`FrameView`] is the read-only handle that a host gets.

use vstd::prelude::*;

use crate::bits::{bit_of, bits_get, byte_set_bit, lemma_bit_kept, lemma_bit_written};

verus! {

/// The number of columns.
pub const WIDTH: usize = 64;

/// The number of rows.
pub const HEIGHT: usize = 32;

/// The number of bytes that hold one image.
pub const MEM_LENGTH: usize = 256;

/// The place of pixel `(x, y)` among the pixels of an image.
pub open spec fn pixel_index(x: int, y: int) -> int {
    y * 64 + x
}

/// The pixels that the bytes of an image stand for, row after row.
pub open spec fn pixels_of(bytes: Seq<u8>) -> Seq<bool> {
    Seq::new(2048, |p: int| bit_of(bytes, p))
}

/// The image in which no pixel is lit.
pub open spec fn blank() -> Seq<bool> {
    Seq::new(2048, |p: int| false)
}

/// The pixels after pixel `(x, y)` took the value `old XOR val`.
pub open spec fn xor_pixel(pixels: Seq<bool>, x: int, y: int, val: bool) -> Seq<bool> {
    pixels.update(pixel_index(x, y), pixels[pixel_index(x, y)] != val)
}

/// What a picture looks like when every pixel has become a square of
/// `scale` by `scale` pixels: entry `[j][i]` is pixel
/// `(i / scale, j / scale)`.
pub open spec fn scaled(pixels: Seq<bool>, scale: int) -> Seq<Seq<bool>> {
    Seq::new(
        (32 * scale) as nat,
        |j: int| Seq::new((64 * scale) as nat, |i: int| pixels[pixel_index(i / scale, j / scale)]),
    )
}

/// The rows of a picture from the top, each from left to right.
pub open spec fn rows_of(pixels: Seq<bool>) -> Seq<Seq<bool>> {
    Seq::new(32, |y: int| Seq::new(64, |x: int| pixels[pixel_index(x, y)]))
}

/// The mark of a pixel position outside the picture.
#[derive(Debug, Copy, Clone, PartialEq, Eq, Structural)]
pub struct OutOfBounds;

impl OutOfBounds {
    /// A short description of the failure.
    pub fn as_str(&self) -> (text: &'static str)
        ensures
            text@ == "Pixel index out of bounds"@,
    {
        "Pixel index out of bounds"
    }
}

/// Writing XOR twice with a lit value leaves the picture as it was: the
/// operation is its own inverse.
pub proof fn lemma_xor_twice_restores(pixels: Seq<bool>, x: int, y: int, val: bool)
    requires
        pixels.len() == 2048,
        0 <= x < 64,
        0 <= y < 32,
    ensures
        xor_pixel(xor_pixel(pixels, x, y, val), x, y, val) == pixels,
        xor_pixel(xor_pixel(pixels, x, y, true), x, y, true)[pixel_index(x, y)] == pixels[pixel_index(
            x,
            y,
        )],
{
    assert(xor_pixel(xor_pixel(pixels, x, y, val), x, y, val) =~= pixels);
}

/// The image whose bytes are all zero is the blank picture.
pub proof fn lemma_zero_bytes_are_blank(bytes: Seq<u8>)
    requires
        bytes.len() == 256,
        forall|b: int| 0 <= b < 256 ==> bytes[b] == 0,
    ensures
        pixels_of(bytes) == blank(),
{
    let pixels = pixels_of(bytes);
    assert forall|p: int| 0 <= p < 2048 implies !#[trigger] pixels[p] by {
        let i = (p % 8) as u8;
        assert(i < 8 ==> 0u8 & (0x80u8 >> i) == 0) by (bit_vector);
    }
    assert(pixels =~= blank());
}

/// The pixel at `(x, y)` of an image, absent outside the picture.
pub(crate) fn image_get_bit(bytes: &[u8; 256], x: usize, y: usize) -> (bit: Option<&bool>)
    ensures
        bit == (if x < 64 && y < 32 {
            Some(&pixels_of(bytes@)[pixel_index(x as int, y as int)])
        } else {
            None
        }),
{
    if x < WIDTH && y < HEIGHT {
        bits_get(bytes.as_slice(), y * WIDTH + x)
    } else {
        None
    }
}

/// Sets the pixel at `(x, y)` of an image to its old value XOR `val`.
pub(crate) fn image_xor_bit(bytes: &mut [u8; 256], x: usize, y: usize, val: bool) -> (done: Result<
    (),
    OutOfBounds,
>)
    ensures
        done is Ok <==> x < 64 && y < 32,
        done is Ok ==> pixels_of(final(bytes)@) == xor_pixel(
            pixels_of(old(bytes)@),
            x as int,
            y as int,
            val,
        ),
        done is Err ==> *final(bytes) == *old(bytes),
{
    if x >= WIDTH || y >= HEIGHT {
        return Err(OutOfBounds);
    }
    let index = y * WIDTH + x;
    let current = match bits_get(bytes.as_slice(), index) {
        Some(bit) => *bit,
        None => {
            return Err(OutOfBounds);
        },
    };
    let at = index / 8;
    let changed = byte_set_bit(bytes[at], index % 8, current != val);
    bytes[at] = changed;
    proof {
        let before = pixels_of(old(bytes)@);
        let after = pixels_of(bytes@);
        assert forall|p: int| 0 <= p < 2048 implies after[p] == xor_pixel(
            before,
            x as int,
            y as int,
            val,
        )[p] by {
            if p / 8 == at as int {
                if p % 8 == (index % 8) as int {
                    lemma_bit_written(old(bytes)@[at as int], p % 8, current != val);
                } else {
                    lemma_bit_kept(old(bytes)@[at as int], (index % 8) as int, current != val, p % 8);
                }
            }
        }
        assert(after =~= xor_pixel(before, x as int, y as int, val));
    }
    Ok(())
}

/// The rows of an image from the top, each from left to right.
pub(crate) fn image_rows(bytes: &[u8; 256]) -> (rows: Vec<Vec<bool>>)
    ensures
        rows.deep_view() == rows_of(pixels_of(bytes@)),
{
    let mut rows: Vec<Vec<bool>> = Vec::new();
    let mut y: usize = 0;
    while y < HEIGHT
        invariant
            y <= 32,
            rows@.len() == y,
            forall|j: int|
                0 <= j < y ==> (#[trigger] rows@[j])@ == rows_of(pixels_of(bytes@))[j],
        decreases 32 - y,
    {
        let mut row: Vec<bool> = Vec::new();
        let mut x: usize = 0;
        while x < WIDTH
            invariant
                y < 32,
                x <= 64,
                row@.len() == x,
                forall|i: int|
                    0 <= i < x ==> #[trigger] row@[i] == pixels_of(bytes@)[pixel_index(
                        i,
                        y as int,
                    )],
            decreases 64 - x,
        {
            let lit = match image_get_bit(bytes, x, y) {
                Some(bit) => *bit,
                None => false,
            };
            row.push(lit);
            x += 1;
        }
        assert(row@ =~= rows_of(pixels_of(bytes@))[y as int]);
        rows.push(row);
        y += 1;
    }
    assert(rows.deep_view() =~~= rows_of(pixels_of(bytes@)));
    rows
}

/// An image of its own, detached from the machine that drew it.
#[derive(Clone, PartialEq, Eq, Hash, Debug)]
pub struct Frame([u8; 256]);

/// A shared, read-only view of an image.
///
/// A lit pixel is a set bit. The bytes hold the rows from the top of the
/// picture to its bottom, and each row from left to right.
#[derive(Copy, Clone, PartialEq, Eq, Hash, Debug)]
pub struct FrameView<'a>(&'a [u8; 256]);

impl<'a> FrameView<'a> {
    /// The 2048 pixels, row after row.
    pub open spec fn pixels(&self) -> Seq<bool> {
        pixels_of(self.raw()@)
    }

    /// The bytes of the image.
    pub closed spec fn raw(&self) -> [u8; 256] {
        *self.0
    }

    /// A view of the given bytes.
    pub fn new(frame: &'a [u8; 256]) -> (view: Self)
        ensures
            view.raw() == *frame,
    {
        FrameView(frame)
    }

    /// The bytes of the image that is viewed.
    pub fn as_raw(&self) -> (bytes: &[u8])
        ensures
            bytes@ == self.raw()@,
            bytes@.len() == 256,
            pixels_of(bytes@) == self.pixels(),
    {
        self.0.as_slice()
    }

    /// A copy of the image that is viewed.
    pub fn copy_frame(self) -> (frame: Frame)
        ensures
            frame.raw() == self.raw(),
            frame.pixels() == self.pixels(),
    {
        Frame(*self.0)
    }

    /// The pixel at column `x` of row `y`, absent outside the picture.
    pub fn get_bit(&self, x: usize, y: usize) -> (bit: Option<&bool>)
        ensures
            bit == (if x < 64 && y < 32 {
                Some(&self.pixels()[pixel_index(x as int, y as int)])
            } else {
                None
            }),
    {
        image_get_bit(self.0, x, y)
    }

    /// The 32 rows from the top, each with its 64 pixels from the left.
    pub fn iter_rows_as_bitslices(&self) -> (rows: Vec<Vec<bool>>)
        ensures
            rows.deep_view() == rows_of(self.pixels()),
    {
        image_rows(self.0)
    }

    /// The picture enlarged by `scale`: `32 * scale` rows of `64 * scale`
    /// pixels, in which every pixel of the image has become a square of
    /// `scale` by `scale` equal pixels.
    pub fn iter_pixelwise_scaled(&self, scale: usize) -> (rows: Vec<Vec<bool>>)
        requires
            64 * scale <= usize::MAX,
        ensures
            rows.deep_view() == scaled(self.pixels(), scale as int),
    {
        let height = HEIGHT * scale;
        let width = WIDTH * scale;
        let mut rows: Vec<Vec<bool>> = Vec::new();
        let mut j: usize = 0;
        while j < height
            invariant
                height == 32 * scale,
                width == 64 * scale,
                j <= height,
                rows@.len() == j,
                forall|k: int|
                    0 <= k < j ==> (#[trigger] rows@[k])@ == scaled(self.pixels(), scale as int)[k],
            decreases height - j,
        {
            let y = j / scale;
            assert(y < 32) by (nonlinear_arith)
                requires
                    j < 32 * scale,
                    y == j / scale,
                    scale > 0,
            ;
            let mut row: Vec<bool> = Vec::new();
            let mut i: usize = 0;
            while i < width
                invariant
                    width == 64 * scale,
                    scale > 0,
                    y < 32,
                    y == j / scale,
                    i <= width,
                    row@.len() == i,
                    forall|k: int|
                        0 <= k < i ==> #[trigger] row@[k] == self.pixels()[pixel_index(
                            k / (scale as int),
                            y as int,
                        )],
                decreases width - i,
            {
                let x = i / scale;
                assert(x < 64) by (nonlinear_arith)
                    requires
                        i < 64 * scale,
                        x == i / scale,
                        scale > 0,
                ;
                let lit = match image_get_bit(self.0, x, y) {
                    Some(bit) => *bit,
                    None => false,
                };
                row.push(lit);
                i += 1;
            }
            assert(row@ =~= scaled(self.pixels(), scale as int)[j as int]);
            rows.push(row);
            j += 1;
        }
        assert(rows.deep_view() =~~= scaled(self.pixels(), scale as int));
        rows
    }
}

impl Frame {
    /// The 2048 pixels, row after row.
    pub open spec fn pixels(&self) -> Seq<bool> {
        pixels_of(self.raw()@)
    }

    /// The bytes of the image.
    pub closed spec fn raw(&self) -> [u8; 256] {
        self.0
    }

    /// An image in which no pixel is lit.
    pub fn new() -> (frame: Self)
        ensures
            frame.pixels() == blank(),
    {
        let frame = Frame([0u8;256]);
        proof {
            lemma_zero_bytes_are_blank(frame.0@);
        }
        frame
    }

    /// A view of this image.
    pub fn view(&self) -> (view: FrameView<'_>)
        ensures
            view.raw() == self.raw(),
            view.pixels() == self.pixels(),
    {
        FrameView(&self.0)
    }

    /// Sets the pixel at column `x` of row `y` to its old value XOR `val`;
    /// a position outside the picture is refused and changes nothing.
    pub fn xor_bit(&mut self, x: usize, y: usize, val: bool) -> (done: Result<(), OutOfBounds>)
        ensures
            done is Ok <==> x < 64 && y < 32,
            done is Ok ==> final(self).pixels() == xor_pixel(old(self).pixels(), x as int, y as int, val),
            done is Err ==> *final(self) == *old(self),
    {
        image_xor_bit(&mut self.0, x, y, val)
    }

    /// The bytes of the image, to be written to.
    pub fn as_raw_mut(&mut self) -> (bytes: &mut [u8])
        ensures
            bytes@ == old(self).raw()@,
            final(bytes)@ == final(self).raw()@,
    {
        &mut self.0
    }
}

} // verus!
