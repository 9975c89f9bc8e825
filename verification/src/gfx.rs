//! The frame buffer that the machine draws into.

use vstd::prelude::*;

use crate::frame::{
    blank, image_get_bit, image_rows, image_xor_bit, lemma_zero_bytes_are_blank, pixel_index,
    pixels_of, rows_of, xor_pixel, FrameView, OutOfBounds,
};

pub use crate::frame::{HEIGHT, WIDTH};

verus! {

/// The frame buffer: 64 by 32 pixels in 256 bytes, row after row, the
/// leftmost pixel of each byte in its most significant bit.
pub struct Gfx([u8; 256]);

impl Gfx {
    /// The bytes of the frame buffer.
    pub closed spec fn raw(&self) -> [u8; 256] {
        self.0
    }

    /// The 2048 pixels, row after row.
    pub open spec fn pixels(&self) -> Seq<bool> {
        pixels_of(self.raw()@)
    }

    /// A frame buffer in which no pixel is lit.
    pub fn new() -> (gfx: Self)
        ensures
            gfx.pixels() == blank(),
            forall|b: int| 0 <= b < 256 ==> gfx.raw()@[b] == 0,
    {
        let gfx = Gfx([0u8;256]);
        proof {
            lemma_zero_bytes_are_blank(gfx.0@);
        }
        gfx
    }

    /// Switches every pixel off.
    pub fn clear(&mut self)
        ensures
            final(self).pixels() == blank(),
            forall|b: int| 0 <= b < 256 ==> final(self).raw()@[b] == 0,
    {
        self.0 = [0u8;256];
        proof {
            lemma_zero_bytes_are_blank(self.0@);
        }
    }

    /// The bytes of the frame buffer.
    pub fn as_raw(&self) -> (bytes: &[u8])
        ensures
            bytes@ == self.raw()@,
            bytes@.len() == 256,
            pixels_of(bytes@) == self.pixels(),
    {
        self.0.as_slice()
    }

    /// The bytes of the frame buffer, to be written to.
    pub fn as_raw_mut(&mut self) -> (bytes: &mut [u8])
        ensures
            bytes@ == old(self).raw()@,
            final(bytes)@ == final(self).raw()@,
    {
        &mut self.0
    }

    /// A read-only view of the frame buffer for the host.
    pub fn view(&self) -> (view: FrameView<'_>)
        ensures
            view.raw() == self.raw(),
            view.pixels() == self.pixels(),
    {
        FrameView::new(&self.0)
    }

    /// The pixel at column `x` of row `y`, absent outside the picture.
    pub fn get_bit(&self, x: usize, y: usize) -> (bit: Option<&bool>)
        ensures
            bit == (if x < 64 && y < 32 {
                Some(&self.pixels()[pixel_index(x as int, y as int)])
            } else {
                None
            }),
    {
        image_get_bit(&self.0, x, y)
    }

    /// Sets the pixel at column `x` of row `y` to its old value XOR `val`;
    /// a position outside the picture is refused and changes nothing.
    pub fn xor_bit(&mut self, x: usize, y: usize, val: bool) -> (done: Result<(), OutOfBounds>)
        ensures
            done is Ok <==> x < 64 && y < 32,
            done is Ok ==> final(self).pixels() == xor_pixel(
                old(self).pixels(),
                x as int,
                y as int,
                val,
            ),
            done is Err ==> *final(self) == *old(self),
    {
        image_xor_bit(&mut self.0, x, y, val)
    }

    /// The 32 rows from the top, each with its 64 pixels from the left.
    pub fn iter_rows_bitwise(&self) -> (rows: Vec<Vec<bool>>)
        ensures
            rows.deep_view() == rows_of(self.pixels()),
    {
        image_rows(&self.0)
    }
}

} // verus!
