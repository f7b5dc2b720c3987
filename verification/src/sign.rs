use crate::crypto::{
    base64_bytes, base64_decode, base64_encode, base64_text, pkcs1v15_sha256_sign,
    pkcs1v15_sha256_verify, rsa_sha256_signature, rsa_sha256_verifies,
};
use crate::request::{build_notification_signing_text, notification_signing_text};
use crate::error::PayError;
use vstd::prelude::*;
use vstd::string::*;
use vstd::utf8::*;

verus! {

/// The longest signature that is still put into base64: half the address
/// space, far beyond any RSA modulus.
pub open spec fn encodable(signature: Seq<u8>) -> bool {
    signature.len() <= usize::MAX / 2
}

/// The base64 text of the signature that the merchant key gives to
/// `content`, or `None` where the key cannot sign it.
pub open spec fn signature_text(private_key_pem: Seq<char>, content: Seq<char>) -> Option<
    Seq<char>,
> {
    match rsa_sha256_signature(private_key_pem, encode_utf8(content)) {
        Some(signature) => if encodable(signature) {
            Some(base64_text(signature))
        } else {
            None
        },
        None => None,
    }
}

/// Signs `content` with the merchant's private key and returns the signature
/// in base64. Fails with `PayError::Signing`, and only with it, exactly where
/// the key is malformed or the signing primitive refuses.
pub fn rsa_sign(private_key_pem: &str, content: &str) -> (res: Result<String, PayError>)
    ensures
        match signature_text(private_key_pem@, content@) {
            Some(text) => res matches Ok(signed) && signed@ == text,
            None => res matches Err(e) && e == PayError::Signing,
        },
{
    match pkcs1v15_sha256_sign(private_key_pem, content.as_bytes()) {
        Some(signature) => {
            if signature.len() <= usize::MAX / 2 {
                Ok(base64_encode(signature.as_slice()))
            } else {
                Err(PayError::Signing)
            }
        },
        None => Err(PayError::Signing),
    }
}

/// Whether `signature`, in base64, is the gateway's signature over a
/// notification with this timestamp, nonce and body, under the public key
/// written in `public_key_pem`.
pub open spec fn notification_verifies(
    public_key_pem: Seq<char>,
    timestamp: Seq<char>,
    nonce: Seq<char>,
    signature: Seq<char>,
    body: Seq<char>,
) -> bool {
    match base64_bytes(signature) {
        Some(bytes) => rsa_sha256_verifies(
            public_key_pem,
            encode_utf8(notification_signing_text(timestamp, nonce, body)),
            bytes,
        ),
        None => false,
    }
}

/// Checks the signature of an inbound notification against one public key.
/// Fails with `PayError::Verification`, and only with it, exactly where the
/// signature does not match.
pub fn verify_signature(
    public_key_pem: &str,
    timestamp: &str,
    nonce: &str,
    signature: &str,
    body: &str,
) -> (res: Result<(), PayError>)
    ensures
        res == if notification_verifies(public_key_pem@, timestamp@, nonce@, signature@, body@) {
            Ok::<(), PayError>(())
        } else {
            Err(PayError::Verification)
        },
{
    let message = build_notification_signing_text(timestamp, nonce, body);
    match base64_decode(signature) {
        Some(bytes) => {
            if pkcs1v15_sha256_verify(
                public_key_pem,
                message.as_str().as_bytes(),
                bytes.as_slice(),
            ) {
                Ok(())
            } else {
                Err(PayError::Verification)
            }
        },
        None => Err(PayError::Verification),
    }
}

} // verus!
