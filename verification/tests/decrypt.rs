use aes_gcm::aead::{Aead, Payload};
use aes_gcm::{Aes256Gcm, Key, KeyInit, Nonce};
use base64::engine::general_purpose::STANDARD;
use base64::Engine;
use wechat_pay::decrypt::{decrypt_bytes, decrypt_text};
use wechat_pay::error::PayError;

const SEALED_WITH_AAD: &str = "4ouITzeV7GmUYUbi3WteHWDJhosm6kZJUP2ufayn6t1LCwJbyNB2kCOtOjKYqxYmFNCtB25M8aasBiLjWvxN";
const SEALED_NOT_UTF8: &str = "ZlfuubLxTV0KzVhsnH6tixTp";

const KEY: &str = "0123456789abcdef0123456789abcdef";
const NONCE: &str = "0123456789ab";
const PLAIN: &str = r#"{"out_trade_no":"ORD1","trade_state":"SUCCESS"}"#;

fn seal(key: &str, nonce: &str, associated_data: &str, plain: &[u8]) -> String {
    let cipher = Aes256Gcm::new(Key::<Aes256Gcm>::from_slice(key.as_bytes()));
    let sealed = cipher
        .encrypt(
            Nonce::from_slice(nonce.as_bytes()),
            Payload { msg: plain, aad: associated_data.as_bytes() },
        )
        .unwrap();
    STANDARD.encode(sealed)
}

#[test]
fn a_known_ciphertext_opens_to_its_plaintext() {
    assert_eq!(decrypt_text(KEY, SEALED_WITH_AAD, NONCE, "transaction"), Ok(PLAIN.to_string()));
    assert_eq!(
        decrypt_bytes(KEY, SEALED_WITH_AAD, NONCE, "transaction"),
        Ok(PLAIN.as_bytes().to_vec())
    );
}

#[test]
fn sealing_then_opening_gives_the_plaintext_back() {
    for plain in ["", "x", PLAIN, "支付成功 ✓"] {
        let sealed = seal(KEY, NONCE, "transaction", plain.as_bytes());
        assert_eq!(decrypt_text(KEY, &sealed, NONCE, "transaction"), Ok(plain.to_string()));
    }
}

#[test]
fn an_altered_key_nonce_or_associated_data_fails_closed() {
    let sealed = seal(KEY, NONCE, "transaction", PLAIN.as_bytes());
    assert_eq!(
        decrypt_text("1123456789abcdef0123456789abcdef", &sealed, NONCE, "transaction"),
        Err(PayError::Decryption)
    );
    assert_eq!(
        decrypt_text(KEY, &sealed, "0123456789ac", "transaction"),
        Err(PayError::Decryption)
    );
    assert_eq!(decrypt_text(KEY, &sealed, NONCE, "transactioN"), Err(PayError::Decryption));
    assert_eq!(decrypt_text(KEY, &sealed, NONCE, ""), Err(PayError::Decryption));
    assert_eq!(
        decrypt_bytes("1123456789abcdef0123456789abcdef", &sealed, NONCE, "transaction"),
        Err(PayError::Decryption)
    );
}

#[test]
fn an_altered_ciphertext_or_tag_fails_closed() {
    let cipher = Aes256Gcm::new(Key::<Aes256Gcm>::from_slice(KEY.as_bytes()));
    let sealed = cipher
        .encrypt(
            Nonce::from_slice(NONCE.as_bytes()),
            Payload { msg: PLAIN.as_bytes(), aad: b"transaction" },
        )
        .unwrap();
    for at in [0, sealed.len() / 2, sealed.len() - 1] {
        let mut altered = sealed.clone();
        altered[at] ^= 1;
        assert_eq!(
            decrypt_bytes(KEY, &STANDARD.encode(&altered), NONCE, "transaction"),
            Err(PayError::Decryption)
        );
    }
    let cut = &sealed[..sealed.len() - 1];
    assert_eq!(
        decrypt_bytes(KEY, &STANDARD.encode(cut), NONCE, "transaction"),
        Err(PayError::Decryption)
    );
}

#[test]
fn a_key_or_nonce_of_the_wrong_length_fails() {
    let sealed = seal(KEY, NONCE, "transaction", PLAIN.as_bytes());
    assert_eq!(decrypt_bytes("short", &sealed, NONCE, "transaction"), Err(PayError::Decryption));
    assert_eq!(decrypt_bytes("", &sealed, NONCE, "transaction"), Err(PayError::Decryption));
    assert_eq!(
        decrypt_bytes("0123456789abcdef0123456789abcdef0", &sealed, NONCE, "transaction"),
        Err(PayError::Decryption)
    );
    assert_eq!(
        decrypt_bytes(KEY, &sealed, "0123456789a", "transaction"),
        Err(PayError::Decryption)
    );
    assert_eq!(
        decrypt_bytes(KEY, &sealed, "0123456789abc", "transaction"),
        Err(PayError::Decryption)
    );
    // Thirty-two characters, but more than thirty-two bytes.
    assert_eq!(
        decrypt_bytes("é123456789abcdef0123456789abcdef", &sealed, NONCE, "transaction"),
        Err(PayError::Decryption)
    );
}

#[test]
fn a_ciphertext_that_is_not_base64_or_too_short_fails() {
    assert_eq!(decrypt_bytes(KEY, "%%%", NONCE, "transaction"), Err(PayError::Decryption));
    assert_eq!(decrypt_bytes(KEY, "", NONCE, "transaction"), Err(PayError::Decryption));
    assert_eq!(decrypt_bytes(KEY, "AAAA", NONCE, "transaction"), Err(PayError::Decryption));
    assert_eq!(decrypt_text(KEY, "AAA", NONCE, "transaction"), Err(PayError::Decryption));
}

#[test]
fn an_authentic_plaintext_that_is_not_text_is_a_serialization_error() {
    assert_eq!(decrypt_bytes(KEY, SEALED_NOT_UTF8, NONCE, "certificate"), Ok(vec![0xff, 0xfe]));
    assert_eq!(
        decrypt_text(KEY, SEALED_NOT_UTF8, NONCE, "certificate"),
        Err(PayError::Serialization)
    );
}
