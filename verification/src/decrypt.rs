use crate::crypto::{
    aes_256_gcm_decrypt, aes_256_gcm_opened, base64_bytes, base64_decode, string_from_utf8,
    KEY_LEN, NONCE_LEN,
};
use crate::error::PayError;
use vstd::prelude::*;
use vstd::string::*;
use vstd::utf8::*;

verus! {

/// The plaintext of a sealed resource: `ciphertext` is base64 of the
/// AES-256-GCM ciphertext and its tag; the key, the nonce and the associated
/// data are the UTF-8 bytes of the three texts. `None` where the key is not
/// 32 bytes, the nonce not 12, the base64 malformed, or the tag does not
/// authenticate all of them.
pub open spec fn opened(
    key: Seq<char>,
    ciphertext: Seq<char>,
    nonce: Seq<char>,
    associated_data: Seq<char>,
) -> Option<Seq<u8>> {
    if encode_utf8(key).len() != KEY_LEN || encode_utf8(nonce).len() != NONCE_LEN {
        None
    } else {
        match base64_bytes(ciphertext) {
            Some(sealed) => aes_256_gcm_opened(
                encode_utf8(key),
                encode_utf8(nonce),
                encode_utf8(associated_data),
                sealed,
            ),
            None => None,
        }
    }
}

/// What reading a sealed resource as text gives: the text, or the error
/// that says why there is none.
pub open spec fn opened_text(
    key: Seq<char>,
    ciphertext: Seq<char>,
    nonce: Seq<char>,
    associated_data: Seq<char>,
) -> Result<Seq<char>, PayError> {
    match opened(key, ciphertext, nonce, associated_data) {
        Some(plain) => if valid_utf8(plain) {
            Ok(decode_utf8(plain))
        } else {
            Err(PayError::Serialization)
        },
        None => Err(PayError::Decryption),
    }
}

/// Opens a sealed resource. Fails closed: where authentication fails there
/// is `PayError::Decryption` and no plaintext, whole or partial.
pub fn decrypt_bytes(key: &str, ciphertext: &str, nonce: &str, associated_data: &str) -> (res:
    Result<Vec<u8>, PayError>)
    ensures
        match opened(key@, ciphertext@, nonce@, associated_data@) {
            Some(plain) => res matches Ok(bytes) && bytes@ == plain,
            None => res matches Err(e) && e == PayError::Decryption,
        },
{
    let key_bytes = key.as_bytes();
    let nonce_bytes = nonce.as_bytes();
    if key_bytes.len() != KEY_LEN || nonce_bytes.len() != NONCE_LEN {
        return Err(PayError::Decryption);
    }
    match base64_decode(ciphertext) {
        Some(sealed) => {
            match aes_256_gcm_decrypt(
                key_bytes,
                nonce_bytes,
                associated_data.as_bytes(),
                sealed.as_slice(),
            ) {
                Some(plain) => Ok(plain),
                None => Err(PayError::Decryption),
            }
        },
        None => Err(PayError::Decryption),
    }
}

/// Opens a sealed resource and reads the plaintext as UTF-8 text. A
/// plaintext that is authentic but not UTF-8 gives `PayError::Serialization`.
pub fn decrypt_text(key: &str, ciphertext: &str, nonce: &str, associated_data: &str) -> (res:
    Result<String, PayError>)
    ensures
        match opened_text(key@, ciphertext@, nonce@, associated_data@) {
            Ok(text) => res matches Ok(plain) && plain@ == text,
            Err(error) => res matches Err(e) && e == error,
        },
{
    match decrypt_bytes(key, ciphertext, nonce, associated_data) {
        Ok(plain) => match string_from_utf8(plain) {
            Some(text) => Ok(text),
            None => Err(PayError::Serialization),
        },
        Err(e) => Err(e),
    }
}

} // verus!
