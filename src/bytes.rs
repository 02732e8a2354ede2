use vstd::prelude::*;

verus! {

/// The bytes of a sequence of words, least significant byte of each word first.
pub open spec fn le_bytes(words: Seq<u32>) -> Seq<u8> {
    Seq::new(4 * words.len(), |i: int| ((words[i / 4] >> (8 * (i % 4)) as u32) & 0xffu32) as u8)
}

/// The bytes of a sequence of words, most significant byte of each word first.
pub open spec fn be_bytes(words: Seq<u32>) -> Seq<u8> {
    Seq::new(4 * words.len(), |i: int| ((words[i / 4] >> (8 * (3 - i % 4)) as u32) & 0xffu32) as u8)
}

/// `bytes` is the in-memory image of `words` on a machine of either byte order.
pub open spec fn native_bytes_of(words: Seq<u32>, bytes: Seq<u8>) -> bool {
    bytes == le_bytes(words) || bytes == be_bytes(words)
}

/// Relies on bytemuck::cast_slice from `u32` to `u8`: it reinterprets the words' memory
/// as bytes (in the target's byte order), four per word, and cannot fail since `u8`
/// has alignment 1 and size 1.
#[verifier::external_body]
pub(crate) fn words_as_bytes(words: &[u32]) -> (r: Vec<u8>)
    ensures
        native_bytes_of(words@, r@),
{
    bytemuck::cast_slice::<u32, u8>(words).to_vec()
}

} // verus!
