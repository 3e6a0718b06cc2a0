//! Reading claims from an access token's payload, without checking its
//! signature, and deciding whether the token is about to expire.

use crate::codec::{
    base64url_bytes, chars_of, decode_base64url, json_integer, json_integer_member, json_member,
    json_member_text, json_string, json_string_member, string_of, unix_now, utf8_text,
};
use crate::text::{split, split_chars};
use vstd::prelude::*;
use vstd::utf8::{decode_utf8, valid_utf8};

verus! {

/// Seconds before its `exp` claim at which a token already counts as expired.
pub const EXPIRY_MARGIN_SECS: i64 = 60;

/// The claim under which the provider nests its account data.
pub const AUTH_CLAIM: &'static str = "https://api.openai.com/auth";

/// The JSON text of a token's payload: the token must have exactly three
/// dot-separated segments, the middle one unpadded base64url of UTF-8 text.
pub open spec fn jwt_payload(token: Seq<char>) -> Option<Seq<char>> {
    let segs = split(token, '.');
    if segs.len() != 3 {
        None
    } else {
        match base64url_bytes(segs[1]) {
            Some(b) => if valid_utf8(b) {
                Some(decode_utf8(b))
            } else {
                None
            },
            None => None,
        }
    }
}

/// The `exp` claim of a token, if its payload decodes and holds one.
pub open spec fn exp_claim(token: Seq<char>) -> Option<i64> {
    match jwt_payload(token) {
        Some(p) => json_integer_member(p, "exp"@),
        None => None,
    }
}

/// A token is expired at `now` (Unix seconds) unless its `exp` claim can be
/// read and lies at least the margin after `now`.
pub open spec fn token_expired_at(token: Seq<char>, now: int) -> bool {
    match exp_claim(token) {
        Some(exp) => exp < now + EXPIRY_MARGIN_SECS,
        None => true,
    }
}

/// The `exp` claim in milliseconds, where that fits in an `i64`.
pub open spec fn exp_millis(token: Seq<char>) -> Option<i64> {
    match exp_claim(token) {
        Some(exp) => if i64::MIN <= exp * 1000 <= i64::MAX {
            Some((exp * 1000) as i64)
        } else {
            None
        },
        None => None,
    }
}

/// The account id in a token's payload: `chatgpt_account_id` of the auth
/// claim where it is a string, else its `account_id`.
pub open spec fn account_id_claim(token: Seq<char>) -> Option<Seq<char>> {
    match jwt_payload(token) {
        Some(p) => match json_member_text(p, AUTH_CLAIM@) {
            Some(auth) => match json_string_member(auth, "chatgpt_account_id"@) {
                Some(id) => Some(id),
                None => json_string_member(auth, "account_id"@),
            },
            None => None,
        },
        None => None,
    }
}

/// Decodes the payload segment of a token to its JSON text.
pub fn decode_jwt_payload_text(token: &str) -> (r: Option<String>)
    ensures
        match r {
            Some(p) => jwt_payload(token@) == Some(p@),
            None => jwt_payload(token@) is None,
        },
{
    let chars = chars_of(token);
    let segs = split_chars(&chars, '.');
    if segs.len() != 3 {
        return None;
    }
    let middle = string_of(&segs[1]);
    proof {
        assert(middle@ == split(token@, '.')[1]);
    }
    match decode_base64url(middle.as_str()) {
        Some(bytes) => utf8_text(bytes),
        None => None,
    }
}

/// Whether a token counts as expired at `now`, Unix seconds. Malformed
/// tokens and tokens without a readable `exp` claim count as expired.
pub fn is_token_expired_at(access_token: &str, now: i64) -> (r: bool)
    ensures
        r == token_expired_at(access_token@, now as int),
{
    let payload = match decode_jwt_payload_text(access_token) {
        Some(p) => p,
        None => return true,
    };
    match json_integer(payload.as_str(), "exp") {
        Some(exp) => (exp as i128) < (now as i128) + (EXPIRY_MARGIN_SECS as i128),
        None => true,
    }
}

/// Whether a token counts as expired now.
pub fn is_token_expired(access_token: &str) -> (r: bool)
    ensures
        exists|now: i64| r == token_expired_at(access_token@, now as int),
        jwt_payload(access_token@) is None ==> r,
{
    let now = unix_now();
    is_token_expired_at(access_token, now)
}

/// The token's `exp` claim in milliseconds.
pub fn decode_token_exp_ms(access_token: &str) -> (r: Option<i64>)
    ensures
        r == exp_millis(access_token@),
{
    let payload = decode_jwt_payload_text(access_token)?;
    let exp = json_integer(payload.as_str(), "exp")?;
    exp.checked_mul(1000)
}

/// The account id that the token's payload carries, if any.
pub fn extract_chatgpt_account_id(access_token: &str) -> (r: Option<String>)
    ensures
        match r {
            Some(id) => account_id_claim(access_token@) == Some(id@),
            None => account_id_claim(access_token@) is None,
        },
{
    let payload = decode_jwt_payload_text(access_token)?;
    let auth = json_member(payload.as_str(), AUTH_CLAIM)?;
    match json_string(auth.as_str(), "chatgpt_account_id") {
        Some(id) => Some(id),
        None => json_string(auth.as_str(), "account_id"),
    }
}

/// A token whose `exp` claim lies before `now` plus the margin counts as
/// expired, one whose claim lies after it does not; a token without exactly
/// three segments, or whose payload does not decode, counts as expired.
pub proof fn lemma_expiry_rule(token: Seq<char>, now: int)
    ensures
        exp_claim(token) matches Some(e) && e < now + EXPIRY_MARGIN_SECS ==> token_expired_at(token, now),
        exp_claim(token) matches Some(e) && e > now + EXPIRY_MARGIN_SECS ==> !token_expired_at(token, now),
        split(token, '.').len() != 3 ==> token_expired_at(token, now),
        jwt_payload(token) is None ==> token_expired_at(token, now),
{
}

} // verus!
