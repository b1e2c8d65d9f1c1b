//! The credential cipher: server-issued RSA key material, base64 transport
//! coding, and the PKCS#1 v1.5 password obfuscation, behind trusted
//! boundaries to `base64` and `rsa`.

use vstd::prelude::*;
use crate::json::{JsonNode, json_doc_of, parse_document, spec_obj_get, spec_text};

verus! {

/// Why encryption failed: the server's key material does not form a valid
/// RSA public key, or the message cannot be encrypted under it.
#[derive(Clone, Copy, Debug, PartialEq, Eq, Structural)]
pub enum CryptoError {
    InvalidKey,
    EncryptFailed,
}

/// Server-issued RSA key material: modulus and exponent as raw big-endian
/// bytes, fetched fresh for each login attempt.
#[derive(Clone, Debug)]
pub struct PublicKeyMaterial {
    pub modulus: Vec<u8>,
    pub exponent: Vec<u8>,
}

/// The bytes denoted by a standard-alphabet base64 text, `None` when the
/// text is not valid base64; the meaning given to `base64::decode`.
pub uninterp spec fn b64_decode_of(s: Seq<char>) -> Option<Seq<u8>>;

/// The standard-alphabet base64 text of a byte string; the meaning given
/// to `base64::encode`.
pub uninterp spec fn b64_encode_of(b: Seq<u8>) -> Seq<char>;

/// Relies on `base64::decode` (standard alphabet, padded): the decoded
/// bytes, a function of the text alone.
#[verifier::external_body]
pub fn b64_decode(s: &str) -> (r: Option<Vec<u8>>)
    ensures
        match r {
            Some(v) => b64_decode_of(s@) == Some(v@),
            None => b64_decode_of(s@) is None,
        },
{
    base64::decode(s).ok()
}

/// Relies on `base64::encode` (standard alphabet, padded): the encoded
/// text, a function of the bytes alone; `base64::decode` of the returned
/// text recovers exactly the input bytes.
#[verifier::external_body]
pub fn b64_encode(b: &[u8]) -> (r: String)
    ensures
        r@ == b64_encode_of(b@),
        b64_decode_of(r@) == Some(b@),
{
    base64::encode(b)
}

/// Whether big-endian `modulus` and `exponent` bytes form an RSA public
/// key that `rsa` accepts; the meaning given to the validation inside
/// `rsa::RsaPublicKey::new` (and repeated by its `encrypt`), which is a
/// function of the key material alone.
pub uninterp spec fn rsa_key_ok(modulus: Seq<u8>, exponent: Seq<u8>) -> bool;

/// Relies on `rsa::RsaPublicKey::new` and `rsa::PublicKey::encrypt`:
/// builds the key from big-endian modulus and exponent bytes, encrypts
/// `message` under RSA PKCS#1 v1.5 padding with the operating system's
/// secure random source, and returns the ciphertext in base64.
///
/// The padding scheme needs eleven bytes of headroom in the modulus, and
/// `rsa`'s encryption does not tolerate less, so the precondition demands
/// it (with a leading nonzero byte, so that the byte count is the key
/// size). Under that precondition the call succeeds exactly when the key
/// material passes `rsa`'s validation — named `rsa_key_ok` — and fails
/// with `InvalidKey` otherwise; on success the ciphertext is the
/// encryption integer left-padded to the modulus byte length, so its
/// decoded length is fixed even though its value is randomized.
#[verifier::external_body]
pub fn encrypt_in_rsa(message: Vec<u8>, public_key: Vec<u8>, exponent: Vec<u8>) -> (r: Result<
    String,
    CryptoError,
>)
    requires
        public_key@.len() > 0,
        public_key@[0] != 0,
        message@.len() + 11 <= public_key@.len(),
    ensures
        r is Ok <==> rsa_key_ok(public_key@, exponent@),
        r is Err ==> r->Err_0 == CryptoError::InvalidKey,
        r is Ok ==> b64_decode_of(r->Ok_0@) is Some && b64_decode_of(r->Ok_0@)->Some_0.len()
            == public_key@.len(),
{
    let n = rsa::BigUint::from_bytes_be(public_key.as_slice());
    let e = rsa::BigUint::from_bytes_be(exponent.as_slice());
    let key = match rsa::RsaPublicKey::new(n, e) {
        Ok(k) => k,
        Err(_) => return Err(CryptoError::InvalidKey),
    };
    let padding = rsa::PaddingScheme::new_pkcs1v15_encrypt();
    match rsa::PublicKey::encrypt(&key, &mut rand::rngs::OsRng, padding, message.as_slice()) {
        Ok(data) => Ok(base64::encode(data)),
        Err(_) => Err(CryptoError::EncryptFailed),
    }
}

/// The key material carried by a key-endpoint response document: its
/// `modulus` and `exponent` members must be strings holding valid base64.
pub open spec fn spec_parse_public_key(doc: Option<JsonNode>) -> Option<(Seq<u8>, Seq<u8>)> {
    match doc {
        None => None,
        Some(d) => {
            let modulus_text = match spec_obj_get(d, "modulus"@) {
                Some(n) => spec_text(n),
                None => None,
            };
            let exponent_text = match spec_obj_get(d, "exponent"@) {
                Some(n) => spec_text(n),
                None => None,
            };
            match (modulus_text, exponent_text) {
                (Some(m), Some(e)) => match (b64_decode_of(m), b64_decode_of(e)) {
                    (Some(mb), Some(eb)) => Some((mb, eb)),
                    _ => None,
                },
                _ => None,
            }
        },
    }
}

/// Decodes a key-endpoint response body into raw key material: the body
/// must be a JSON object whose `modulus` and `exponent` members are base64
/// strings; anything else is a decode failure.
pub fn parse_public_key_response(body: &str) -> (r: Option<PublicKeyMaterial>)
    ensures
        match r {
            Some(km) => spec_parse_public_key(json_doc_of(body@)) == Some(
                (km.modulus@, km.exponent@),
            ),
            None => spec_parse_public_key(json_doc_of(body@)) is None,
        },
{
    let doc = match parse_document(body) {
        None => {
            return None;
        },
        Some(d) => d,
    };
    let modulus_text = match doc.get("modulus") {
        None => {
            return None;
        },
        Some(n) => match n.as_text() {
            None => {
                return None;
            },
            Some(s) => s,
        },
    };
    let exponent_text = match doc.get("exponent") {
        None => {
            return None;
        },
        Some(n) => match n.as_text() {
            None => {
                return None;
            },
            Some(s) => s,
        },
    };
    let modulus = match b64_decode(modulus_text.as_str()) {
        None => {
            return None;
        },
        Some(v) => v,
    };
    let exponent = match b64_decode(exponent_text.as_str()) {
        None => {
            return None;
        },
        Some(v) => v,
    };
    Some(PublicKeyMaterial { modulus, exponent })
}

} // verus!
