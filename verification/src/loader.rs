use vstd::prelude::*;

use crate::error::VmError;

verus! {

/// The words a flat little-endian byte image decodes to: byte pair
/// `2i, 2i + 1` becomes word `i`, low byte first.
pub open spec fn words_of_bytes(bytes: Seq<u8>) -> Seq<u16> {
    Seq::new((bytes.len() / 2) as nat, |i: int| (bytes[2 * i] + 256 * bytes[2 * i + 1]) as u16)
}

/// Decodes a program image: a flat sequence of little-endian 16-bit
/// words, read as byte pairs to the end.  A trailing odd byte is the
/// fatal `LoadError`.
pub fn decode_image(bytes: &Vec<u8>) -> (r: Result<Vec<u16>, VmError>)
    ensures
        match r {
            Ok(words) => bytes@.len() % 2 == 0 && words@ == words_of_bytes(bytes@),
            Err(e) => bytes@.len() % 2 != 0 && e == VmError::LoadError,
        },
{
    let len = bytes.len();
    if len % 2 != 0 {
        return Err(VmError::LoadError);
    }
    let count = len / 2;
    let mut words: Vec<u16> = Vec::new();
    let mut i: usize = 0;
    while i < count
        invariant
            len == bytes@.len(),
            count == bytes@.len() / 2,
            2 * count <= len,
            i <= count,
            words@.len() == i,
            forall|j: int|
                0 <= j < i ==> words@[j] == (bytes@[2 * j] + 256 * bytes@[2 * j + 1]) as u16,
        decreases count - i,
    {
        let lo = bytes[2 * i];
        let hi = bytes[2 * i + 1];
        words.push(lo as u16 + 256 * (hi as u16));
        i += 1;
    }
    proof {
        assert(words@ =~= words_of_bytes(bytes@));
    }
    Ok(words)
}

} // verus!
