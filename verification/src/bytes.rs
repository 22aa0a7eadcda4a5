//! Vertex words as the bytes that are handed to the graphics context.

use vstd::prelude::*;

verus! {

/// Byte `k` of a word, counted from the least significant one.
pub open spec fn byte_of(word: u32, k: int) -> u8 {
    if k == 0 {
        (word % 0x100) as u8
    } else if k == 1 {
        ((word / 0x100) % 0x100) as u8
    } else if k == 2 {
        ((word / 0x1_0000) % 0x100) as u8
    } else {
        (word / 0x100_0000) as u8
    }
}

/// The words laid out one after the other, least significant byte first.
pub open spec fn le_bytes(words: Seq<u32>) -> Seq<u8> {
    Seq::new(4 * words.len(), |i: int| byte_of(words[i / 4], i % 4))
}

/// The words laid out one after the other, most significant byte first.
pub open spec fn be_bytes(words: Seq<u32>) -> Seq<u8> {
    Seq::new(4 * words.len(), |i: int| byte_of(words[i / 4], 3 - i % 4))
}

/// Whether `bytes` are `words` as some machine lays them out in memory.
pub open spec fn is_memory_of(bytes: Seq<u8>, words: Seq<u32>) -> bool {
    bytes == le_bytes(words) || bytes == be_bytes(words)
}

/// `bytemuck::cast_slice::<u32, u8>`: the same memory, seen as bytes. The
/// contract claims four bytes per word, in the order of the words, each word
/// in the byte order of the machine, which is one of the two. The call does
/// not panic for this pair of types: a byte has no alignment to miss and
/// divides every length.
#[verifier::external_body]
pub(crate) fn cast_words(words: &[u32]) -> (bytes: &[u8])
    ensures
        is_memory_of(bytes@, words@),
{
    bytemuck::cast_slice::<u32, u8>(words)
}

/// The memory of some words is four bytes a word, whichever the byte order.
pub proof fn lemma_memory_len(bytes: Seq<u8>, words: Seq<u32>)
    requires
        is_memory_of(bytes, words),
    ensures
        bytes.len() == 4 * words.len(),
{
}

} // verus!
