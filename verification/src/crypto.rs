//! The cryptographic primitives the library rests on. None of them is
//! implemented here: each function below hands its arguments to an outside
//! crate, and what it promises about the result is taken on trust.

use aes_gcm::aead::{Aead, Payload};
use aes_gcm::{Aes256Gcm, Key, KeyInit, Nonce};
use base64::engine::general_purpose::STANDARD;
use base64::Engine;
use rsa::pkcs1v15::{Signature, SigningKey, VerifyingKey};
use rsa::pkcs8::{DecodePrivateKey, DecodePublicKey};
use rsa::sha2::Sha256;
use rsa::signature::{SignatureEncoding, Signer, Verifier};
use vstd::prelude::*;
use vstd::utf8::*;

verus! {

/// Length in bytes of the symmetric notification key.
pub const KEY_LEN: usize = 32;

/// Length in bytes of the nonce of an encrypted resource.
pub const NONCE_LEN: usize = 12;

/// The RSASSA-PKCS1-v1_5 signature, with SHA-256 as digest, that the PKCS#8
/// private key written in `private_key_pem` gives to `message`; `None` where
/// the text is no such key or the key cannot sign.
pub uninterp spec fn rsa_sha256_signature(private_key_pem: Seq<char>, message: Seq<u8>) -> Option<
    Seq<u8>,
>;

/// Whether `signature` is accepted as an RSASSA-PKCS1-v1_5 signature, with
/// SHA-256 as digest, of `message` under the public key written in
/// `public_key_pem`; `false` where the text is no such key.
pub uninterp spec fn rsa_sha256_verifies(
    public_key_pem: Seq<char>,
    message: Seq<u8>,
    signature: Seq<u8>,
) -> bool;

/// The plaintext that AES-256-GCM recovers from `sealed` (ciphertext followed
/// by its 16-byte tag) under `key`, `nonce` and `aad`; `None` where the tag
/// does not authenticate them.
pub uninterp spec fn aes_256_gcm_opened(
    key: Seq<u8>,
    nonce: Seq<u8>,
    aad: Seq<u8>,
    sealed: Seq<u8>,
) -> Option<Seq<u8>>;

/// The standard, padded base64 text of `bytes`.
pub uninterp spec fn base64_text(bytes: Seq<u8>) -> Seq<char>;

/// The bytes that `text` stands for in standard, padded base64; `None` where
/// it is not well-formed.
pub uninterp spec fn base64_bytes(text: Seq<char>) -> Option<Seq<u8>>;

/// Calls `rsa::pkcs1v15::SigningKey::<Sha256>::try_sign` with the key that
/// `DecodePrivateKey::from_pkcs8_pem` reads from `private_key_pem`.
///
/// Trusted: that the outcome depends on the two arguments alone (the crate
/// signs without randomness), so it can be named `rsa_sha256_signature`.
#[verifier::external_body]
pub(crate) fn pkcs1v15_sha256_sign(private_key_pem: &str, message: &[u8]) -> (res: Option<Vec<u8>>)
    ensures
        match res {
            Some(signature) => rsa_sha256_signature(private_key_pem@, message@) == Some(
                signature@,
            ),
            None => rsa_sha256_signature(private_key_pem@, message@) is None,
        },
{
    match SigningKey::<Sha256>::from_pkcs8_pem(private_key_pem) {
        Ok(key) => match key.try_sign(message) {
            Ok(signature) => Some(signature.to_vec()),
            Err(_) => None,
        },
        Err(_) => None,
    }
}

/// Calls `rsa::pkcs1v15::VerifyingKey::<Sha256>::verify` with the key that
/// `DecodePublicKey::from_public_key_pem` reads from `public_key_pem`.
///
/// Trusted: that the verdict depends on the three arguments alone, so it can
/// be named `rsa_sha256_verifies`. A key that cannot be read counts as a
/// rejection.
#[verifier::external_body]
pub(crate) fn pkcs1v15_sha256_verify(
    public_key_pem: &str,
    message: &[u8],
    signature: &[u8],
) -> (res: bool)
    ensures
        res == rsa_sha256_verifies(public_key_pem@, message@, signature@),
{
    match VerifyingKey::<Sha256>::from_public_key_pem(public_key_pem) {
        Ok(key) => match Signature::try_from(signature) {
            Ok(signature) => key.verify(message, &signature).is_ok(),
            Err(_) => false,
        },
        Err(_) => false,
    }
}

/// Calls `aes_gcm::Aes256Gcm::decrypt` (the `Aead` trait) on a cipher made
/// from `key`.
///
/// Trusted: that the outcome depends on the four arguments alone, so it can
/// be named `aes_256_gcm_opened`. The two length demands keep out the inputs
/// on which the crate's fixed-size arrays would panic.
#[verifier::external_body]
pub(crate) fn aes_256_gcm_decrypt(key: &[u8], nonce: &[u8], aad: &[u8], sealed: &[u8]) -> (res:
    Option<Vec<u8>>)
    requires
        key@.len() == KEY_LEN,
        nonce@.len() == NONCE_LEN,
    ensures
        match res {
            Some(plain) => aes_256_gcm_opened(key@, nonce@, aad@, sealed@) == Some(plain@),
            None => aes_256_gcm_opened(key@, nonce@, aad@, sealed@) is None,
        },
{
    let cipher = Aes256Gcm::new(Key::<Aes256Gcm>::from_slice(key));
    cipher.decrypt(Nonce::from_slice(nonce), Payload { msg: sealed, aad }).ok()
}

/// Calls `base64::Engine::encode` on the `STANDARD` engine.
///
/// Trusted: that the text depends on the bytes alone. The length demand
/// keeps out the inputs whose encoded length would not fit a `usize`, on
/// which the crate panics.
#[verifier::external_body]
pub(crate) fn base64_encode(bytes: &[u8]) -> (res: String)
    requires
        bytes@.len() <= usize::MAX / 2,
    ensures
        res@ == base64_text(bytes@),
{
    STANDARD.encode(bytes)
}

/// Calls `base64::Engine::decode` on the `STANDARD` engine.
///
/// Trusted: that the outcome depends on the text alone.
#[verifier::external_body]
pub(crate) fn base64_decode(text: &str) -> (res: Option<Vec<u8>>)
    ensures
        match res {
            Some(bytes) => base64_bytes(text@) == Some(bytes@),
            None => base64_bytes(text@) is None,
        },
{
    STANDARD.decode(text).ok()
}

/// Calls `String::from_utf8`.
///
/// Trusted: that it accepts exactly the well-formed UTF-8 sequences and
/// then returns the characters they encode.
#[verifier::external_body]
pub(crate) fn string_from_utf8(bytes: Vec<u8>) -> (res: Option<String>)
    ensures
        res is Some <==> valid_utf8(bytes@),
        res matches Some(text) ==> text@ == decode_utf8(bytes@),
{
    String::from_utf8(bytes).ok()
}

} // verus!
