//! The request signature: HMAC-SHA256 over the canonical string, in hex.

use vstd::prelude::*;
use vstd::string::*;
use vstd::utf8::*;
use crate::text::{decimal_digits, hex_lower, is_lower_hex, lemma_hex_lower_alphabet, push_decimal};

verus! {

/// The HMAC-SHA256 tag of `message` under `key`.
pub uninterp spec fn hmac_sha256(key: Seq<u8>, message: Seq<u8>) -> Seq<u8>;

/// Computes an HMAC-SHA256 tag with `hmac::Hmac<sha2::Sha256>`: the key is
/// taken by `new_from_slice`, the message fed by `update`, the tag read by
/// `finalize().into_bytes()`.
///
/// Trusted: the tag is the named `hmac_sha256` of the two byte strings and
/// is 32 bytes long, the output size of SHA-256. `new_from_slice` accepts a
/// key of any length, so a tag is always returned.
#[verifier::external_body]
fn hmac_sha256_tag(key: &[u8], message: &[u8]) -> (r: Option<Vec<u8>>)
    ensures
        r.is_some(),
        r.unwrap()@ == hmac_sha256(key@, message@),
        r.unwrap()@.len() == 32,
{
    let mut mac = <hmac::Hmac<sha2::Sha256> as hmac::Mac>::new_from_slice(key).ok()?;
    hmac::Mac::update(&mut mac, message);
    Some(hmac::Mac::finalize(mac).into_bytes().to_vec())
}

/// Renders bytes with `hex::encode`.
///
/// Trusted: the result is the lowercase hexadecimal rendering of the bytes,
/// two characters for each byte, the high half first.
#[verifier::external_body]
fn hex_encode(bytes: &[u8]) -> (r: String)
    ensures
        r@ == hex_lower(bytes@),
{
    hex::encode(bytes)
}

/// The canonical string that is signed: method, path with query, body and
/// the timestamp's decimal numeral, with nothing in between.
pub open spec fn signing_input(
    method: Seq<char>,
    path: Seq<char>,
    body: Seq<char>,
    timestamp: nat,
) -> Seq<char> {
    method + path + body + decimal_digits(timestamp)
}

/// The signature of a request: the hex rendering of the HMAC-SHA256 tag of
/// the canonical string's UTF-8 bytes, keyed by the secret's UTF-8 bytes.
pub open spec fn signature(
    secret: Seq<char>,
    method: Seq<char>,
    path: Seq<char>,
    body: Seq<char>,
    timestamp: nat,
) -> Seq<char> {
    hex_lower(
        hmac_sha256(encode_utf8(secret), encode_utf8(signing_input(method, path, body, timestamp))),
    )
}

/// Whether `s` has the shape of a signature: 64 lowercase hex digits.
pub open spec fn is_signature_text(s: Seq<char>) -> bool {
    &&& s.len() == 64
    &&& forall|i: int| 0 <= i < s.len() ==> is_lower_hex(#[trigger] s[i])
}

/// Signs a request with `secret`.
///
/// The result depends on the five arguments alone, and is always 64
/// lowercase hex digits.
pub fn sign_with(secret: &str, method: &str, path: &str, body: &str, timestamp: u128) -> (r: String)
    ensures
        r@ == signature(secret@, method@, path@, body@, timestamp as nat),
        is_signature_text(r@),
{
    let mut prepared = String::new();
    prepared.append(method);
    prepared.append(path);
    prepared.append(body);
    push_decimal(&mut prepared, timestamp);
    assert(prepared@ =~= signing_input(method@, path@, body@, timestamp as nat));
    let tag = hmac_sha256_tag(secret.as_bytes(), prepared.as_str().as_bytes());
    let tag = tag.unwrap();
    proof {
        lemma_hex_lower_alphabet(tag@);
    }
    hex_encode(tag.as_slice())
}

} // verus!
