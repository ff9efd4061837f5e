//! Words as bytes.

use vstd::prelude::*;

verus! {

/// The bytes of `word`, least significant first.
pub open spec fn le_bytes(word: u32) -> Seq<u8> {
    seq![
        (word & 0xFFu32) as u8,
        ((word >> 8u32) & 0xFFu32) as u8,
        ((word >> 16u32) & 0xFFu32) as u8,
        ((word >> 24u32) & 0xFFu32) as u8,
    ]
}

} // verus!
