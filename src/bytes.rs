use vstd::prelude::*;

verus! {

/// Bytes `4 * j .. 4 * j + 4` of `b`, the bytes of word `j`, are all zero.
pub open spec fn word_is_zero(b: Seq<u8>, j: int) -> bool {
    &&& b[4 * j] == 0
    &&& b[4 * j + 1] == 0
    &&& b[4 * j + 2] == 0
    &&& b[4 * j + 3] == 0
}

/// The four bytes of `w`, least significant first.
pub open spec fn le_bytes(w: u32) -> Seq<u8> {
    seq![
        (w % 0x100) as u8,
        ((w / 0x100) % 0x100) as u8,
        ((w / 0x1_0000) % 0x100) as u8,
        (w / 0x100_0000) as u8,
    ]
}

/// The four bytes of `w`, most significant first.
pub open spec fn be_bytes(w: u32) -> Seq<u8> {
    seq![
        (w / 0x100_0000) as u8,
        ((w / 0x1_0000) % 0x100) as u8,
        ((w / 0x100) % 0x100) as u8,
        (w % 0x100) as u8,
    ]
}

/// The bytes of word `j` of `b`.
pub open spec fn word_bytes(b: Seq<u8>, j: int) -> Seq<u8> {
    b.subrange(4 * j, 4 * j + 4)
}

/// `b` holds the words of `words`, one after the other, each as its four
/// bytes least significant first.
pub open spec fn is_le_words(b: Seq<u8>, words: Seq<u32>) -> bool {
    &&& b.len() == 4 * words.len()
    &&& forall|j: int| 0 <= j < words.len() ==> word_bytes(b, j) == le_bytes(#[trigger] words[j])
}

/// `b` holds the words of `words`, one after the other, each as its four
/// bytes most significant first.
pub open spec fn is_be_words(b: Seq<u8>, words: Seq<u32>) -> bool {
    &&& b.len() == 4 * words.len()
    &&& forall|j: int| 0 <= j < words.len() ==> word_bytes(b, j) == be_bytes(#[trigger] words[j])
}

/// Relies on bytemuck::cast_slice from `u32` to `u8`: the words' own memory,
/// four bytes per word in order, all in the machine's one byte order (little-
/// or big-endian), so that a word is zero exactly when its four bytes are.
#[verifier::external_body]
pub(crate) fn words_to_bytes(words: &Vec<u32>) -> (r: Vec<u8>)
    ensures
        r@.len() == 4 * words@.len(),
        is_le_words(r@, words@) || is_be_words(r@, words@),
        forall|j: int| 0 <= j < words@.len() ==> (word_is_zero(r@, j) <==> words@[j] == 0),
{
    bytemuck::cast_slice::<u32, u8>(words.as_slice()).to_vec()
}

} // verus!
