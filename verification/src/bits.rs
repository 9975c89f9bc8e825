//! Single bits of bytes, counted from the most significant bit.
//!
//! The frame buffer and the sprites both store eight pixels in a byte, the
//! leftmost pixel in the high bit. This module states what that means and
//! reads and writes such bits.

use vstd::prelude::*;

use bitvec::prelude::{BitView, Msb0};

verus! {

/// The byte in which only position `index` is set, positions counted from
/// the most significant bit.
pub open spec fn msb0_mask(index: int) -> u8
    recommends
        0 <= index < 8,
{
    0x80u8 >> (index as u8)
}

/// The bit at position `index` of a byte.
pub open spec fn msb0_bit(byte: u8, index: int) -> bool
    recommends
        0 <= index < 8,
{
    byte & msb0_mask(index) != 0
}

/// The byte that has `value` at position `index` and the bits of `byte`
/// elsewhere.
pub open spec fn msb0_with(byte: u8, index: int, value: bool) -> u8
    recommends
        0 <= index < 8,
{
    if value {
        byte | msb0_mask(index)
    } else {
        byte & !msb0_mask(index)
    }
}

/// The bit at position `index` of a sequence of bytes: bytes in order, and
/// in each byte the most significant bit first.
pub open spec fn bit_of(bytes: Seq<u8>, index: int) -> bool
    recommends
        0 <= index < 8 * bytes.len(),
{
    msb0_bit(bytes[index / 8], index % 8)
}

/// The most bytes that can be read as one run of bits, all of them, on
/// every machine this library builds for.
pub const MAX_BIT_REGION_BYTES: usize = 0x03FF_FFFF;

/// `BitSlice::get` of bitvec, on the `Msb0` view of a byte slice
/// (`BitView::view_bits`).
///
/// Trusted: the result is absent exactly when `index` is not below the
/// number of bits, and is otherwise bit `index % 8`, counted from the most
/// significant, of byte `index / 8`. The view refuses a slice near the
/// largest that the address space holds, and cannot reach the last bit of
/// one just below that; `requires` keeps below both.
#[verifier::external_body]
pub(crate) fn bits_get(bytes: &[u8], index: usize) -> (bit: Option<&bool>)
    requires
        bytes@.len() <= MAX_BIT_REGION_BYTES,
    ensures
        bit == (if index < 8 * bytes@.len() {
            Some(&bit_of(bytes@, index as int))
        } else {
            None
        }),
{
    bytes.view_bits::<Msb0>().get(index)
}

/// `BitSlice::set` of bitvec, on the `Msb0` view of one byte
/// (`BitView::view_bits_mut`).
///
/// Trusted: the byte that comes back has `value` at position `index`,
/// counted from the most significant bit, and is otherwise `byte`. Outside
/// `0..8` the call panics, so `requires` leaves that out.
#[verifier::external_body]
pub(crate) fn byte_set_bit(byte: u8, index: usize, value: bool) -> (changed: u8)
    requires
        index < 8,
    ensures
        changed == msb0_with(byte, index as int, value),
{
    let mut changed = byte;
    changed.view_bits_mut::<Msb0>().set(index, value);
    changed
}

/// Writing a bit and reading it back gives what was written.
pub proof fn lemma_bit_written(byte: u8, index: int, value: bool)
    requires
        0 <= index < 8,
    ensures
        msb0_bit(msb0_with(byte, index, value), index) == value,
{
    let i = index as u8;
    assert(i < 8 ==> (byte | (0x80u8 >> i)) & (0x80u8 >> i) != 0) by (bit_vector);
    assert(i < 8 ==> (byte & !(0x80u8 >> i)) & (0x80u8 >> i) == 0) by (bit_vector);
}

/// Writing a bit leaves the other bits of the byte as they were.
pub proof fn lemma_bit_kept(byte: u8, index: int, value: bool, other: int)
    requires
        0 <= index < 8,
        0 <= other < 8,
        other != index,
    ensures
        msb0_bit(msb0_with(byte, index, value), other) == msb0_bit(byte, other),
{
    let i = index as u8;
    let j = other as u8;
    assert(i < 8 && j < 8 && i != j ==> (byte | (0x80u8 >> i)) & (0x80u8 >> j) == byte & (0x80u8
        >> j)) by (bit_vector);
    assert(i < 8 && j < 8 && i != j ==> (byte & !(0x80u8 >> i)) & (0x80u8 >> j) == byte & (0x80u8
        >> j)) by (bit_vector);
}

} // verus!
