//! PKCE secrets: random URL-safe tokens and the S256 code challenge.

use crate::codec::{base64url_text, encode_base64url, random_bytes, sha256, sha256_of};
use vstd::prelude::*;
use vstd::utf8::encode_utf8;

verus! {

/// Number of random bytes behind each state value and code verifier.
pub const TOKEN_BYTES: usize = 32;

/// Whether `t` is the base64url text of `TOKEN_BYTES` bytes.
pub open spec fn is_secret_token(t: Seq<char>) -> bool {
    exists|b: Seq<u8>| b.len() == TOKEN_BYTES && t == base64url_text(b)
}

/// The S256 code challenge of a verifier: the base64url text of the SHA-256
/// digest of its UTF-8 bytes.
pub open spec fn challenge_of(verifier: Seq<char>) -> Seq<char> {
    base64url_text(sha256_of(encode_utf8(verifier)))
}

/// A fresh random token: `TOKEN_BYTES` random bytes in unpadded base64url.
pub fn generate_base64url_token() -> (r: String)
    ensures
        is_secret_token(r@),
{
    let bytes = random_bytes(TOKEN_BYTES);
    let r = encode_base64url(bytes.as_slice());
    proof {
        assert(bytes@.len() == TOKEN_BYTES && r@ == base64url_text(bytes@));
    }
    r
}

/// The PKCE code challenge of `code_verifier`: the unpadded base64url text
/// of the SHA-256 digest of its bytes.
pub fn generate_code_challenge(code_verifier: &str) -> (r: String)
    ensures
        r@ == challenge_of(code_verifier@),
{
    let bytes = code_verifier.as_bytes();
    assert(bytes@ == encode_utf8(code_verifier@));
    let digest = sha256(bytes);
    encode_base64url(digest.as_slice())
}

/// Deriving a challenge is deterministic: equal verifiers give equal
/// challenges.
pub proof fn lemma_challenge_deterministic(v1: Seq<char>, v2: Seq<char>)
    requires
        v1 == v2,
    ensures
        challenge_of(v1) == challenge_of(v2),
{
}

} // verus!
