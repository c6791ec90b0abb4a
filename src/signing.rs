//! Request signing: the canonical message (prehash) of a request and its
//! base64 HMAC-SHA256 signature under the account's secret.

use vstd::prelude::*;
use vstd::utf8::encode_utf8;
use crypto::mac::Mac;

verus! {

/// What `base64::decode` yields for `s`: its bytes, or `None` where `s` is not
/// valid padded base64 in the standard alphabet.
pub uninterp spec fn base64_decoded(s: Seq<char>) -> Option<Seq<u8>>;

/// What `base64::encode` yields for `b`.
pub uninterp spec fn base64_encoded(b: Seq<u8>) -> Seq<char>;

/// The HMAC-SHA256 code of `msg` under `key`.
pub uninterp spec fn hmac_sha256(key: Seq<u8>, msg: Seq<u8>) -> Seq<u8>;

/// A character of the standard base64 alphabet, or the padding character.
pub open spec fn is_base64_char(c: char) -> bool {
    ('A' <= c && c <= 'Z') || ('a' <= c && c <= 'z') || ('0' <= c && c <= '9') || c == '+' || c
        == '/' || c == '='
}

/// Relies on `base64::decode` (standard alphabet, padding required) for the
/// bytes that `s` encodes; its error is dropped.
#[verifier::external_body]
fn decode_base64(s: &str) -> (r: Option<Vec<u8>>)
    ensures
        match r {
            Some(v) => base64_decoded(s@) == Some(v@),
            None => base64_decoded(s@) is None,
        },
{
    base64::decode(s).ok()
}

/// Relies on `base64::encode`: the standard, padded base64 text of `b`, made
/// of characters of the standard alphabet and `=`.
#[verifier::external_body]
fn encode_base64(b: &[u8]) -> (r: String)
    ensures
        r@ == base64_encoded(b@),
        forall|i: int| 0 <= i < r@.len() ==> is_base64_char(#[trigger] r@[i]),
{
    base64::encode(b)
}

/// Relies on rust-crypto's `Hmac<Sha256>`: fed `msg` once, its code under `key`.
#[verifier::external_body]
fn hmac_sha256_code(key: &[u8], msg: &[u8]) -> (r: Vec<u8>)
    ensures
        r@ == hmac_sha256(key@, msg@),
{
    let mut mac = crypto::hmac::Hmac::new(crypto::sha2::Sha256::new(), key);
    mac.input(msg);
    mac.result().code().to_vec()
}

/// The canonical message of a request: timestamp, method, path and body, in
/// that order and without separators. An absent body contributes nothing.
pub open spec fn prehash_of(
    timestamp: Seq<char>,
    method: Seq<char>,
    path: Seq<char>,
    body: Option<Seq<char>>,
) -> Seq<char> {
    match body {
        Some(b) => timestamp + method + path + b,
        None => timestamp + method + path,
    }
}

/// Base64 of the HMAC-SHA256 of the UTF-8 bytes of `prehash` under `key`.
pub open spec fn signature_with_key(key: Seq<u8>, prehash: Seq<char>) -> Seq<char> {
    base64_encoded(hmac_sha256(key, encode_utf8(prehash)))
}

/// The signature of `prehash` under a base64 `secret`; `None` where the
/// secret is not valid base64.
pub open spec fn signature_for(secret: Seq<char>, prehash: Seq<char>) -> Option<Seq<char>> {
    match base64_decoded(secret) {
        Some(key) => Some(signature_with_key(key, prehash)),
        None => None,
    }
}

/// Every character of a signature belongs to the base64 alphabet.
pub open spec fn is_base64_text(s: Seq<char>) -> bool {
    forall|i: int| 0 <= i < s.len() ==> is_base64_char(#[trigger] s[i])
}

/// Builds the canonical message of a request.
pub fn prehash(path: &str, body: Option<&str>, timestamp: &str, method: &str) -> (r: String)
    ensures
        r@ == prehash_of(
            timestamp@,
            method@,
            path@,
            match body {
                Some(b) => Some(b@),
                None => None,
            },
        ),
{
    let mut r = String::from_str(timestamp);
    r.append(method);
    r.append(path);
    match body {
        Some(b) => r.append(b),
        None => {},
    }
    r
}

/// Signs `prehash` with the raw key bytes.
pub fn sign_with_key(key: &[u8], prehash: &str) -> (r: String)
    ensures
        r@ == signature_with_key(key@, prehash@),
        is_base64_text(r@),
{
    let code = hmac_sha256_code(key, prehash.as_bytes());
    encode_base64(code.as_slice())
}

/// Decodes a base64 secret into key bytes.
pub fn decode_secret(secret: &str) -> (r: Option<Vec<u8>>)
    ensures
        match r {
            Some(v) => base64_decoded(secret@) == Some(v@),
            None => base64_decoded(secret@) is None,
        },
{
    decode_base64(secret)
}

/// A non-empty body is part of what is signed: the canonical message with it
/// differs from the one without it.
pub proof fn lemma_body_changes_prehash(
    timestamp: Seq<char>,
    method: Seq<char>,
    path: Seq<char>,
    body: Seq<char>,
)
    requires
        body.len() > 0,
    ensures
        prehash_of(timestamp, method, path, Some(body)) != prehash_of(
            timestamp,
            method,
            path,
            None,
        ),
{
    assert(prehash_of(timestamp, method, path, Some(body)).len() != prehash_of(
        timestamp,
        method,
        path,
        None,
    ).len());
}

} // verus!
