//! Request signatures: `base64(HMAC-SHA256(secret, message))`.
use base64::engine::general_purpose::STANDARD;
use base64::Engine;
use ethers::prelude::k256::sha2::Sha256;
use hmac::{Hmac, Mac};
use vstd::prelude::*;
use vstd::utf8::{encode_utf8, encode_utf8_decode_utf8};

verus! {

/// The HMAC-SHA256 authentication code of `message` under `key`.
pub uninterp spec fn hmac_sha256(key: Seq<u8>, message: Seq<u8>) -> Seq<u8>;

/// The padded base64 text of `bytes` in the standard alphabet.
pub uninterp spec fn base64_standard(bytes: Seq<u8>) -> Seq<char>;

/// Characters of the standard base64 alphabet, padding included.
pub open spec fn is_base64_char(c: char) -> bool {
    ('A' <= c && c <= 'Z') || ('a' <= c && c <= 'z') || ('0' <= c && c <= '9') || c == '+' || c
        == '/' || c == '='
}

/// Text made of characters of the standard base64 alphabet only.
pub open spec fn is_base64_text(text: Seq<char>) -> bool {
    forall|i: int| 0 <= i < text.len() ==> is_base64_char(#[trigger] text[i])
}

/// The string that is signed for a request: timestamp, method, path and body
/// joined with nothing in between.
pub open spec fn prehash(
    timestamp: Seq<char>,
    method: Seq<char>,
    endpoint: Seq<char>,
    body: Seq<char>,
) -> Seq<char> {
    timestamp + method + endpoint + body
}

/// The signature of `message` under `secret`, both taken as UTF-8 text.
pub open spec fn signature(secret: Seq<char>, message: Seq<char>) -> Seq<char> {
    base64_standard(hmac_sha256(encode_utf8(secret), encode_utf8(message)))
}

/// Calls `Hmac::<Sha256>::new_from_slice`, `update` and `finalize` of the
/// `hmac` crate.  Assumed: the code returned is a function of key and message
/// alone and is 32 bytes long, the output size of SHA-256.  The constructor
/// accepts keys of every length.
#[verifier::external_body]
fn hmac_sha256_bytes(key: &[u8], message: &[u8]) -> (code: Vec<u8>)
    ensures
        code@ == hmac_sha256(key@, message@),
        code@.len() == 32,
{
    let mut mac = Hmac::<Sha256>::new_from_slice(key).expect("HMAC can take key of any size");
    mac.update(message);
    mac.finalize().into_bytes().to_vec()
}

/// Calls `Engine::encode` on `STANDARD` of the `base64` crate.  Assumed: the
/// text is a function of the bytes alone and holds only characters of the
/// standard alphabet and `=`.  The crate panics when the encoded length
/// overflows `usize`, which the bound on the input excludes.
#[verifier::external_body]
fn base64_encode(bytes: &[u8]) -> (text: String)
    requires
        bytes@.len() <= 0x3000_0000,
    ensures
        text@ == base64_standard(bytes@),
        is_base64_text(text@),
{
    STANDARD.encode(bytes)
}

/// Signs `message` with `secret`.
fn sign(secret: &str, message: &str) -> (text: String)
    ensures
        text@ == signature(secret@, message@),
        is_base64_text(text@),
{
    let code = hmac_sha256_bytes(secret.as_bytes(), message.as_bytes());
    base64_encode(code.as_slice())
}

/// The prehash string of a request: the four texts joined in this order
/// with no separator.  An empty body adds nothing.
pub fn prehash_string(
    timestamp: &str,
    method: &str,
    endpoint: &str,
    body: &str,
) -> (message: String)
    ensures
        message@ == prehash(timestamp@, method@, endpoint@, body@),
{
    String::from_str(timestamp).concat(method).concat(endpoint).concat(body)
}

/// Signs the prehash string of a request with the API secret.
///
/// `timestamp` must be the value sent in the `KC-API-TIMESTAMP` header,
/// `method` the HTTP method as it is sent, `endpoint` the path with its
/// query string and `body` the raw request body, empty when there is none.
pub fn encrypt_prehash(
    api_secret: &str,
    timestamp: &str,
    method: &str,
    endpoint: &str,
    body: &str,
) -> (sign_text: String)
    ensures
        sign_text@ == signature(api_secret@, prehash(timestamp@, method@, endpoint@, body@)),
        is_base64_text(sign_text@),
{
    let message = prehash_string(timestamp, method, endpoint, body);
    sign(api_secret, message.as_str())
}

/// Signs the passphrase with the API secret.  The message is the passphrase
/// alone: nothing of a request enters it.
pub fn encrypt_pass(api_secret: String, passphrase: String) -> (pass_text: String)
    ensures
        pass_text@ == signature(api_secret@, passphrase@),
        is_base64_text(pass_text@),
{
    sign(api_secret.as_str(), passphrase.as_str())
}

/// How many of the four signed components differ between two requests.
pub open spec fn changed_components(
    timestamp1: Seq<char>,
    method1: Seq<char>,
    endpoint1: Seq<char>,
    body1: Seq<char>,
    timestamp2: Seq<char>,
    method2: Seq<char>,
    endpoint2: Seq<char>,
    body2: Seq<char>,
) -> int {
    (if timestamp1 == timestamp2 { 0int } else { 1 }) + (if method1 == method2 { 0int } else { 1 })
        + (if endpoint1 == endpoint2 { 0int } else { 1 }) + (if body1 == body2 { 0int } else { 1 })
}

/// Signing is a function of its inputs: the same secret, timestamp, method,
/// path and body always give the same signature, character for character.
pub proof fn lemma_signature_is_reproducible(
    secret1: Seq<char>,
    timestamp1: Seq<char>,
    method1: Seq<char>,
    endpoint1: Seq<char>,
    body1: Seq<char>,
    secret2: Seq<char>,
    timestamp2: Seq<char>,
    method2: Seq<char>,
    endpoint2: Seq<char>,
    body2: Seq<char>,
)
    requires
        secret1 == secret2,
        timestamp1 == timestamp2,
        method1 == method2,
        endpoint1 == endpoint2,
        body1 == body2,
    ensures
        signature(secret1, prehash(timestamp1, method1, endpoint1, body1)) == signature(
            secret2,
            prehash(timestamp2, method2, endpoint2, body2),
        ),
{
}

/// The prehash string has no separators, so it tells its parts apart only
/// by their lengths: two requests whose timestamps, methods and paths have
/// pairwise the same length and whose prehash strings agree are the same
/// request.
pub proof fn lemma_prehash_determines_parts_of_known_length(
    timestamp1: Seq<char>,
    method1: Seq<char>,
    endpoint1: Seq<char>,
    body1: Seq<char>,
    timestamp2: Seq<char>,
    method2: Seq<char>,
    endpoint2: Seq<char>,
    body2: Seq<char>,
)
    requires
        timestamp1.len() == timestamp2.len(),
        method1.len() == method2.len(),
        endpoint1.len() == endpoint2.len(),
        prehash(timestamp1, method1, endpoint1, body1) == prehash(
            timestamp2,
            method2,
            endpoint2,
            body2,
        ),
    ensures
        timestamp1 == timestamp2,
        method1 == method2,
        endpoint1 == endpoint2,
        body1 == body2,
{
    let first = prehash(timestamp1, method1, endpoint1, body1);
    let second = prehash(timestamp2, method2, endpoint2, body2);
    let a = timestamp1.len() as int;
    let b = a + method1.len();
    let c = b + endpoint1.len();
    assert(first.len() == c + body1.len());
    assert(second.len() == c + body2.len());
    assert(timestamp1 =~= first.subrange(0, a));
    assert(timestamp2 =~= second.subrange(0, a));
    assert(method1 =~= first.subrange(a, b));
    assert(method2 =~= second.subrange(a, b));
    assert(endpoint1 =~= first.subrange(b, c));
    assert(endpoint2 =~= second.subrange(b, c));
    assert(body1 =~= first.subrange(c, first.len() as int));
    assert(body2 =~= second.subrange(c, second.len() as int));
}

/// A change confined to one of timestamp, method, path and body changes the
/// prehash string and the bytes that are authenticated: no two such requests
/// are signed over the same message.
pub proof fn lemma_single_change_changes_message(
    timestamp1: Seq<char>,
    method1: Seq<char>,
    endpoint1: Seq<char>,
    body1: Seq<char>,
    timestamp2: Seq<char>,
    method2: Seq<char>,
    endpoint2: Seq<char>,
    body2: Seq<char>,
)
    requires
        changed_components(
            timestamp1,
            method1,
            endpoint1,
            body1,
            timestamp2,
            method2,
            endpoint2,
            body2,
        ) == 1,
    ensures
        prehash(timestamp1, method1, endpoint1, body1) != prehash(
            timestamp2,
            method2,
            endpoint2,
            body2,
        ),
        encode_utf8(prehash(timestamp1, method1, endpoint1, body1)) != encode_utf8(
            prehash(timestamp2, method2, endpoint2, body2),
        ),
{
    let first = prehash(timestamp1, method1, endpoint1, body1);
    let second = prehash(timestamp2, method2, endpoint2, body2);
    if first == second {
        assert(first.len() == timestamp1.len() + method1.len() + endpoint1.len() + body1.len());
        assert(second.len() == timestamp2.len() + method2.len() + endpoint2.len() + body2.len());
        lemma_prehash_determines_parts_of_known_length(
            timestamp1,
            method1,
            endpoint1,
            body1,
            timestamp2,
            method2,
            endpoint2,
            body2,
        );
    }
    assert(first != second);
    if encode_utf8(first) == encode_utf8(second) {
        encode_utf8_decode_utf8(first);
        encode_utf8_decode_utf8(second);
    }
}

} // verus!
