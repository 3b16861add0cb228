//! Reinterpreting a raw machine word as the narrower or signed integer that
//! a handler takes.
//!
//! Each conversion keeps the low bits of the word and reads them in two's
//! complement, as a register move would.

use vstd::prelude::*;

verus! {

/// The word read as a signed integer of the machine's width.
pub open spec fn spec_signed_word(w: usize) -> int {
    if w <= isize::MAX {
        w as int
    } else {
        w - usize::MAX - 1
    }
}

/// The word read as a signed 64-bit integer. A word narrower than 64 bits
/// is never negative.
pub open spec fn spec_signed_64(w: usize) -> int {
    if w <= i64::MAX {
        w as int
    } else {
        w - 0x1_0000_0000_0000_0000
    }
}

/// The low 32 bits of the word read as a signed integer.
pub open spec fn spec_signed_32(w: usize) -> int {
    let low = w as int % 0x1_0000_0000;
    if low < 0x8000_0000 {
        low
    } else {
        low - 0x1_0000_0000
    }
}

/// The low 8 bits of the word.
pub open spec fn spec_low_byte(w: usize) -> int {
    w as int % 0x100
}

/// Reads the word as a signed integer of the machine's width.
pub fn signed_word(w: usize) -> (r: isize)
    ensures
        r == spec_signed_word(w),
{
    if w <= isize::MAX as usize {
        w as isize
    } else {
        let above: usize = w - isize::MAX as usize - 1;
        above as isize + isize::MIN
    }
}

/// Reads the word as a signed 64-bit integer.
pub fn signed_64(w: usize) -> (r: i64)
    ensures
        r == spec_signed_64(w),
{
    let r = #[verifier::truncate] (w as i64);
    assert(r == spec_signed_64(w)) by (bit_vector)
        requires r == #[verifier::truncate] (w as i64);
    r
}

/// Reads the low 32 bits of the word as a signed integer.
pub fn signed_32(w: usize) -> (r: i32)
    ensures
        r == spec_signed_32(w),
{
    let r = #[verifier::truncate] (w as i32);
    assert(r == spec_signed_32(w)) by (bit_vector)
        requires r == #[verifier::truncate] (w as i32);
    r
}

/// Keeps the low 8 bits of the word.
pub fn low_byte(w: usize) -> (r: u8)
    ensures
        r == spec_low_byte(w),
{
    let r = #[verifier::truncate] (w as u8);
    assert(r == spec_low_byte(w)) by (bit_vector)
        requires r == #[verifier::truncate] (w as u8);
    r
}

} // verus!
