//! Where the sixteen keys sit on a keypad of four rows by four columns.
//!
//! ```text
//! 1 2 3 C
//! 4 5 6 D
//! 7 8 9 E
//! A 0 B F
//! ```

use vstd::prelude::*;

verus! {

/// The key at column `col` of row `row`.
pub open spec fn key_of(row: int, col: int) -> int {
    if col == 3 {
        0xC + row
    } else if row == 3 {
        if col == 0 {
            0xA
        } else if col == 1 {
            0x0
        } else {
            0xB
        }
    } else {
        row * 3 + col + 1
    }
}

/// Every key sits at exactly one place.
pub proof fn lemma_one_place_per_key(key: int)
    requires
        0 <= key < 16,
    ensures
        exists|row: int, col: int| 0 <= row < 4 && 0 <= col < 4 && #[trigger] key_of(row, col) == key,
        forall|row: int, col: int, other_row: int, other_col: int|
            0 <= row < 4 && 0 <= col < 4 && 0 <= other_row < 4 && 0 <= other_col < 4
                && #[trigger] key_of(row, col) == #[trigger] key_of(other_row, other_col) ==> row
                == other_row && col == other_col,
{
    assert(key_of(3, 1) == 0x0);
    assert(key_of(0, 0) == 0x1);
    assert(key_of(0, 1) == 0x2);
    assert(key_of(0, 2) == 0x3);
    assert(key_of(1, 0) == 0x4);
    assert(key_of(1, 1) == 0x5);
    assert(key_of(1, 2) == 0x6);
    assert(key_of(2, 0) == 0x7);
    assert(key_of(2, 1) == 0x8);
    assert(key_of(2, 2) == 0x9);
    assert(key_of(3, 0) == 0xA);
    assert(key_of(3, 2) == 0xB);
    assert(key_of(0, 3) == 0xC);
    assert(key_of(1, 3) == 0xD);
    assert(key_of(2, 3) == 0xE);
    assert(key_of(3, 3) == 0xF);
}

/// The key at column `col` of row `row`.
pub fn key_at(row: usize, col: usize) -> (key: usize)
    requires
        row < 4,
        col < 4,
    ensures
        key == key_of(row as int, col as int),
        key < 16,
{
    match (row, col) {
        (0, 0) => 0x1,
        (0, 1) => 0x2,
        (0, 2) => 0x3,
        (0, 3) => 0xC,
        (1, 0) => 0x4,
        (1, 1) => 0x5,
        (1, 2) => 0x6,
        (1, 3) => 0xD,
        (2, 0) => 0x7,
        (2, 1) => 0x8,
        (2, 2) => 0x9,
        (2, 3) => 0xE,
        (3, 0) => 0xA,
        (3, 1) => 0x0,
        (3, 2) => 0xB,
        _ => 0xF,
    }
}

/// The keys that are held, from one scan of the keypad: entry
/// `row * 4 + col` of `scan` tells whether the column `col` was found
/// high while row `row` was driven.
pub fn keys_from_scan(scan: &[bool; 16]) -> (keys: [bool; 16])
    ensures
        forall|row: int, col: int|
            0 <= row < 4 && 0 <= col < 4 ==> keys@[#[trigger] key_of(row, col)] == scan@[row * 4
                + col],
{
    let mut keys = [false;16];
    let mut row: usize = 0;
    while row < 4
        invariant
            row <= 4,
            forall|r: int, c: int|
                0 <= r < row && 0 <= c < 4 ==> keys@[#[trigger] key_of(r, c)] == scan@[r * 4 + c],
        decreases 4 - row,
    {
        let mut col: usize = 0;
        while col < 4
            invariant
                row < 4,
                col <= 4,
                forall|r: int, c: int|
                    0 <= r < row && 0 <= c < 4 ==> keys@[#[trigger] key_of(r, c)] == scan@[r * 4
                        + c],
                forall|c: int|
                    0 <= c < col ==> keys@[#[trigger] key_of(row as int, c)] == scan@[row * 4 + c],
            decreases 4 - col,
        {
            let key = key_at(row, col);
            keys[key] = scan[row * 4 + col];
            col += 1;
        }
        row += 1;
    }
    keys
}

} // verus!
