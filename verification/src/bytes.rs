//! Reinterpreting 32-bit words as the bytes a GPU buffer holds, and back,
//! through `bytemuck`.
use vstd::prelude::*;

verus! {

/// The value of word `i` of `b` read least-significant byte first.
pub open spec fn le_word(b: Seq<u8>, i: int) -> int {
    b[4 * i] as int + 256 * b[4 * i + 1] as int + 65536 * b[4 * i + 2] as int
        + 16777216 * b[4 * i + 3] as int
}

/// The value of word `i` of `b` read most-significant byte first.
pub open spec fn be_word(b: Seq<u8>, i: int) -> int {
    b[4 * i + 3] as int + 256 * b[4 * i + 2] as int + 65536 * b[4 * i + 1] as int
        + 16777216 * b[4 * i] as int
}

/// `b` holds exactly the words of `w`, each least-significant byte first.
pub open spec fn is_le_encoding(w: Seq<u32>, b: Seq<u8>) -> bool {
    &&& b.len() == 4 * w.len()
    &&& forall|i: int| 0 <= i < w.len() ==> #[trigger] w[i] as int == le_word(b, i)
}

/// `b` holds exactly the words of `w`, each most-significant byte first.
pub open spec fn is_be_encoding(w: Seq<u32>, b: Seq<u8>) -> bool {
    &&& b.len() == 4 * w.len()
    &&& forall|i: int| 0 <= i < w.len() ==> #[trigger] w[i] as int == be_word(b, i)
}

/// `b` holds the words of `w` in the byte order of the machine, which is
/// one of the two.
pub open spec fn is_native_encoding(w: Seq<u32>, b: Seq<u8>) -> bool {
    is_le_encoding(w, b) || is_be_encoding(w, b)
}

#[verifier::external_type_specification]
#[verifier::external_body]
pub struct ExPodCastError(bytemuck::PodCastError);

/// Calls `bytemuck::cast_slice::<u32, u8>` and copies the result.
/// The cast views the words' memory as bytes, so the result holds every word
/// in the machine's byte order; which order that is, is left unsaid.
#[verifier::external_body]
pub(crate) fn cast_words_to_bytes(words: &[u32]) -> (bytes: Vec<u8>)
    ensures
        is_native_encoding(words@, bytes@),
{
    bytemuck::cast_slice::<u32, u8>(words).to_vec()
}

/// Calls `bytemuck::try_cast_slice::<u8, u32>` and copies the result.
/// The cast fails when the length is not a multiple of four, and also when
/// the bytes do not start on a four-byte boundary, which depends on where
/// they lie in memory; which error comes in which case is left unsaid.
/// On success the words are the bytes read in the machine's byte order.
#[verifier::external_body]
pub(crate) fn try_cast_bytes_to_words(bytes: &[u8]) -> (r: Result<Vec<u32>, bytemuck::PodCastError>)
    ensures
        bytes@.len() % 4 != 0 ==> r is Err,
        r matches Ok(w) ==> is_native_encoding(w@, bytes@),
{
    match bytemuck::try_cast_slice::<u8, u32>(bytes) {
        Ok(w) => Ok(w.to_vec()),
        Err(e) => Err(e),
    }
}

} // verus!
