use vstd::prelude::*;
use base58::ToBase58;
use crate::entropy::random_bytes;

verus! {

/// The base58 text (Bitcoin alphabet) of a byte sequence.
pub uninterp spec fn base58_of(bytes: Seq<u8>) -> Seq<char>;

/// A character of the Bitcoin base58 alphabet: digits and letters without
/// `0`, `O`, `I` and `l`, all safe in a URL.
pub open spec fn is_base58_char(c: char) -> bool {
    ||| '1' <= c <= '9'
    ||| 'A' <= c <= 'H'
    ||| 'J' <= c <= 'N'
    ||| 'P' <= c <= 'Z'
    ||| 'a' <= c <= 'k'
    ||| 'm' <= c <= 'z'
}

/// Relies on base58::ToBase58::to_base58 for byte slices: it writes one `1`
/// per leading zero byte, then the base-58 digits of the rest, each taken
/// from the alphabet, so a non-empty input gives a non-empty text. The
/// crate supports inputs of up to 128 bytes.
#[verifier::external_body]
fn to_base58(bytes: &[u8]) -> (r: String)
    requires
        bytes@.len() <= 128,
    ensures
        r@ == base58_of(bytes@),
        bytes@.len() > 0 ==> r@.len() > 0,
        forall|i: int| 0 <= i < r@.len() ==> is_base58_char(#[trigger] r@[i]),
{
    bytes.to_base58()
}

/// A CSRF state token: the base58 text of 128 random bits, non-empty and
/// made of URL-safe characters.
pub open spec fn is_csrf_token(t: Seq<char>) -> bool {
    &&& exists|b: Seq<u8>| b.len() == 16 && t == base58_of(b)
    &&& t.len() > 0
    &&& forall|i: int| 0 <= i < t.len() ==> is_base58_char(#[trigger] t[i])
}

/// Draws a fresh CSRF state token.
pub fn new_csrf_token() -> (r: String)
    ensures
        is_csrf_token(r@),
{
    let bytes = random_bytes();
    assert(bytes@.len() == 16);
    to_base58(bytes.as_slice())
}

} // verus!
