//! Packing of an address string into the fixed-width field of a record.

use vstd::prelude::*;
use vstd::utf8::encode_utf8;

verus! {

/// Width in bytes of the address field, and so of every encoded record.
pub const ADDRESS_LEN: usize = 512;

/// The fixed-width image of a byte string: its bytes from the first cell on,
/// cut off after `ADDRESS_LEN` of them, and zeros in the cells that remain.
pub open spec fn zero_padded(bytes: Seq<u8>) -> Seq<u8> {
    Seq::new(
        ADDRESS_LEN as nat,
        |i: int| if i < bytes.len() { bytes[i] } else { 0u8 },
    )
}

/// Packs the UTF-8 bytes of `text` into a zeroed buffer of `ADDRESS_LEN`
/// bytes, left-aligned. A longer string is cut off; nothing is rejected.
pub fn string_to_array(text: String) -> (ans: [u8; 512])
    ensures
        ans@ == zero_padded(encode_utf8(text@)),
{
    let bytes: &[u8] = text.as_str().as_bytes();
    let count: usize = if bytes.len() < ADDRESS_LEN { bytes.len() } else { ADDRESS_LEN };
    let mut ans: [u8; 512] = [0u8; 512];
    let mut i: usize = 0;
    while i < count
        invariant
            i <= count <= ADDRESS_LEN,
            count <= bytes@.len(),
            ans@.len() == ADDRESS_LEN,
            forall|k: int| 0 <= k < i ==> ans@[k] == bytes@[k],
            forall|k: int| i <= k < ADDRESS_LEN ==> ans@[k] == 0u8,
        decreases count - i,
    {
        ans[i] = bytes[i];
        i += 1;
    }
    ans
}

/// The image of a byte string under the packing that leaves the two outer
/// cells of the field out: the first and the last cell are zero, and every
/// cell between holds the byte of its own position, as far as the string
/// reaches.
pub open spec fn zero_padded_clipped(bytes: Seq<u8>) -> Seq<u8> {
    Seq::new(
        ADDRESS_LEN as nat,
        |i: int| if 1 <= i < bytes.len() && i < ADDRESS_LEN - 1 { bytes[i] } else { 0u8 },
    )
}

/// Packs like `string_to_array`, but writes neither the first cell nor the
/// last: the first byte of the string is dropped, each later byte lands at
/// its own position, and the last cell stays zero however long the string is.
/// Between the two outer cells the packings agree. Which of the two a
/// deployment wants has to be settled against the records it already holds.
pub fn string_to_array_clipped(text: String) -> (ans: [u8; 512])
    ensures
        ans@ == zero_padded_clipped(encode_utf8(text@)),
        forall|i: int|
            1 <= i < ADDRESS_LEN - 1 ==> ans@[i] == zero_padded(encode_utf8(text@))[i],
{
    let bytes: &[u8] = text.as_str().as_bytes();
    let count: usize = if bytes.len() < ADDRESS_LEN - 1 { bytes.len() } else { ADDRESS_LEN - 1 };
    let mut ans: [u8; 512] = [0u8; 512];
    let mut i: usize = 1;
    while i < count
        invariant
            1 <= i,
            i <= count || i == 1,
            count <= ADDRESS_LEN - 1,
            count == bytes@.len() || (count == ADDRESS_LEN - 1 && count < bytes@.len()),
            ans@.len() == ADDRESS_LEN,
            ans@[0] == 0u8,
            forall|k: int| 1 <= k < i ==> ans@[k] == bytes@[k],
            forall|k: int| i <= k < ADDRESS_LEN ==> ans@[k] == 0u8,
        decreases count - i,
    {
        ans[i] = bytes[i];
        i += 1;
    }
    ans
}

} // verus!
