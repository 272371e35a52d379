//! Text as it arrives: bytes that must be well-formed UTF-8 and fit a field.

use vstd::prelude::*;
use vstd::utf8::{decode_utf8, valid_utf8};
use crate::error::BlogError;

verus! {

/// True when the first `k` bytes of `bytes` are well-formed UTF-8 and no
/// longer prefix of `bytes` is: `k` is where the first ill-formed sequence
/// begins, or the length of `bytes` when there is none.
pub open spec fn is_valid_up_to(bytes: Seq<u8>, k: int) -> bool {
    &&& 0 <= k <= bytes.len()
    &&& valid_utf8(bytes.subrange(0, k))
    &&& forall|j: int| k < j <= bytes.len() ==> !valid_utf8(#[trigger] bytes.subrange(0, j))
}

/// The length of the longest well-formed prefix of `bytes`.
pub open spec fn valid_up_to(bytes: Seq<u8>) -> int {
    choose|k: int| is_valid_up_to(bytes, k)
}

/// What becomes of `bytes` offered for a field of `capacity` bytes: the
/// decoded text, or the reason for refusing them. The encoding is judged
/// before the length.
pub open spec fn text_of(bytes: Seq<u8>, capacity: nat) -> Result<Seq<char>, BlogError> {
    if !valid_utf8(bytes) {
        Err(BlogError::InvalidEncoding { offset: valid_up_to(bytes) as usize })
    } else if bytes.len() > capacity {
        Err(BlogError::CapacityExceeded)
    } else {
        Ok(decode_utf8(bytes))
    }
}

/// A result that carries text, seen through the text's characters.
pub open spec fn entry_view<T: View<V = Seq<char>>>(r: Result<T, BlogError>) -> Result<
    Seq<char>,
    BlogError,
> {
    match r {
        Ok(text) => Ok(text@),
        Err(e) => Err(e),
    }
}

/// The longest well-formed prefix is unique, and it is the whole sequence
/// exactly when the sequence is well-formed.
pub proof fn lemma_valid_up_to_unique(bytes: Seq<u8>, k: int)
    requires
        is_valid_up_to(bytes, k),
    ensures
        valid_up_to(bytes) == k,
        k == bytes.len() <==> valid_utf8(bytes),
{
    let c = valid_up_to(bytes);
    assert(is_valid_up_to(bytes, c));
    if c < k {
        assert(!valid_utf8(bytes.subrange(0, k)));
    }
    if k < c {
        assert(!valid_utf8(bytes.subrange(0, c)));
    }
    assert(bytes.subrange(0, bytes.len() as int) =~= bytes);
}

/// Among the prefixes of at most `n` bytes there is a longest well-formed one.
proof fn lemma_longest_prefix_within(bytes: Seq<u8>, n: int) -> (k: int)
    requires
        0 <= n <= bytes.len(),
    ensures
        0 <= k <= n,
        valid_utf8(bytes.subrange(0, k)),
        forall|j: int| k < j <= n ==> !valid_utf8(#[trigger] bytes.subrange(0, j)),
    decreases n,
{
    if n == 0 || valid_utf8(bytes.subrange(0, n)) {
        n
    } else {
        lemma_longest_prefix_within(bytes, n - 1)
    }
}

/// Every byte sequence has a longest well-formed prefix, so `valid_up_to`
/// always names it.
pub proof fn lemma_valid_up_to_exists(bytes: Seq<u8>)
    ensures
        is_valid_up_to(bytes, valid_up_to(bytes)),
{
    let k = lemma_longest_prefix_within(bytes, bytes.len() as int);
    assert(is_valid_up_to(bytes, k));
}

/// `std::str::from_utf8`, with its error reduced to what
/// `Utf8Error::valid_up_to` reports. Trusted, as std documents the two: the
/// call succeeds exactly on well-formed UTF-8, the string it returns is the
/// given bytes read as text, and the index in the error is the greatest one
/// up to which the bytes are well-formed.
#[verifier::external_body]
fn utf8_text(bytes: &[u8]) -> (r: Result<&str, usize>)
    ensures
        r is Ok <==> valid_utf8(bytes@),
        r matches Ok(text) ==> text@ == decode_utf8(bytes@),
        r matches Err(k) ==> is_valid_up_to(bytes@, k as int),
{
    match std::str::from_utf8(bytes) {
        Ok(text) => Ok(text),
        Err(e) => Err(e.valid_up_to()),
    }
}

/// Reads `bytes` as text for a field that holds at most `capacity` bytes.
/// Ill-formed bytes are reported with the offset of the first ill-formed
/// sequence; well-formed bytes that do not fit are reported as too long.
pub fn read_text(bytes: &[u8], capacity: usize) -> (r: Result<&str, BlogError>)
    ensures
        entry_view(r) == text_of(bytes@, capacity as nat),
{
    match utf8_text(bytes) {
        Err(k) => {
            proof {
                lemma_valid_up_to_unique(bytes@, k as int);
            }
            Err(BlogError::InvalidEncoding { offset: k })
        },
        Ok(text) => {
            if bytes.len() > capacity {
                Err(BlogError::CapacityExceeded)
            } else {
                Ok(text)
            }
        },
    }
}

} // verus!
