use aes_gcm::aead::{Aead, Payload};
use aes_gcm::{Aes256Gcm, Key, KeyInit, Nonce};
use base64::engine::general_purpose::STANDARD;
use base64::Engine;
use wechat_pay::cert::{CertificateCache, Lookup, PlatformCertificate};
use wechat_pay::error::PayError;
use wechat_pay::response::{Certificate, CertificateResponse, EncryptCertificate};

const V3_KEY: &str = "0123456789abcdef0123456789abcdef";

fn held(serial_no: &str, public_key: &str) -> PlatformCertificate {
    PlatformCertificate {
        serial_no: serial_no.to_string(),
        effective_time: "2024-01-01T00:00:00+08:00".to_string(),
        expire_time: "2029-01-01T00:00:00+08:00".to_string(),
        public_key: public_key.to_string(),
    }
}

fn sealed(serial_no: &str, key: &str, plain: &[u8]) -> Certificate {
    let cipher = Aes256Gcm::new(Key::<Aes256Gcm>::from_slice(key.as_bytes()));
    let bytes = cipher
        .encrypt(Nonce::from_slice(b"cert-nonce-7"), Payload { msg: plain, aad: b"certificate" })
        .unwrap();
    Certificate {
        serial_no: serial_no.to_string(),
        effective_time: "2025-02-03T04:05:06+08:00".to_string(),
        expire_time: "2030-02-03T04:05:06+08:00".to_string(),
        encrypt_certificate: EncryptCertificate {
            algorithm: "AEAD_AES_256_GCM".to_string(),
            nonce: "cert-nonce-7".to_string(),
            associated_data: "certificate".to_string(),
            ciphertext: STANDARD.encode(bytes),
        },
    }
}

#[test]
fn an_empty_cache_holds_nothing() {
    let cache = CertificateCache::new();
    assert!(cache.get("A1").is_none());
    assert!(cache.get("").is_none());
}

#[test]
fn a_held_certificate_is_found_by_its_serial_number() {
    let cache = CertificateCache::from_certificates(vec![held("A1", "K1"), held("B2", "K2")]);
    assert_eq!(cache.get("A1").unwrap().public_key, "K1");
    assert_eq!(cache.get("B2").unwrap().public_key, "K2");
    assert_eq!(cache.get("B2").unwrap().serial_no, "B2");
    assert!(cache.get("a1").is_none());
    assert!(cache.get("A").is_none());
}

#[test]
fn an_expired_certificate_can_still_be_asked_for() {
    let mut old = held("OLD", "K0");
    old.expire_time = "2001-01-01T00:00:00+08:00".to_string();
    let cache = CertificateCache::from_certificates(vec![old]);
    assert_eq!(cache.get("OLD").unwrap().expire_time, "2001-01-01T00:00:00+08:00");
}

#[test]
fn of_two_entries_with_one_serial_number_the_later_counts() {
    let cache = CertificateCache::from_certificates(vec![
        held("A1", "first"),
        held("B2", "other"),
        held("A1", "second"),
    ]);
    assert_eq!(cache.get("A1").unwrap().public_key, "second");
}

#[test]
fn a_lookup_that_hits_asks_for_no_refresh() {
    let cache = CertificateCache::from_certificates(vec![held("A1", "K1")]);
    for refreshed in [false, true] {
        match cache.lookup("A1", refreshed) {
            Ok(Lookup::Found(cert)) => {
                assert_eq!(cert.serial_no, "A1");
                assert_eq!(cert.public_key, "K1");
                assert_eq!(cert.effective_time, "2024-01-01T00:00:00+08:00");
                assert_eq!(cert.expire_time, "2029-01-01T00:00:00+08:00");
            }
            other => panic!("unexpected {:?}", other),
        }
    }
}

#[test]
fn a_lookup_that_misses_asks_for_exactly_one_refresh() {
    let mut cache = CertificateCache::from_certificates(vec![held("A1", "K1")]);
    let mut refreshes = 0;
    let mut refreshed = false;
    let outcome = loop {
        match cache.lookup("ZZ", refreshed) {
            Ok(Lookup::Refresh) => {
                refreshes += 1;
                let fetched = CertificateResponse { data: Some(vec![sealed("A1", V3_KEY, b"K1")]) };
                cache.refresh(V3_KEY, Ok(fetched)).unwrap();
                refreshed = true;
            }
            other => break other,
        }
    };
    assert!(matches!(outcome, Err(PayError::UnknownCertificate)));
    assert_eq!(refreshes, 1);
}

#[test]
fn a_refresh_replaces_everything_that_was_held() {
    let mut cache = CertificateCache::from_certificates(vec![held("A1", "K1"), held("B2", "K2")]);
    let fetched = CertificateResponse {
        data: Some(vec![sealed("B2", V3_KEY, b"NEW-K2"), sealed("C3", V3_KEY, b"K3")]),
    };
    assert_eq!(cache.refresh(V3_KEY, Ok(fetched)), Ok(()));
    assert!(cache.get("A1").is_none());
    assert_eq!(cache.get("B2").unwrap().public_key, "NEW-K2");
    let c3 = cache.get("C3").unwrap();
    assert_eq!(c3.public_key, "K3");
    assert_eq!(c3.serial_no, "C3");
    assert_eq!(c3.effective_time, "2025-02-03T04:05:06+08:00");
    assert_eq!(c3.expire_time, "2030-02-03T04:05:06+08:00");
}

#[test]
fn a_refresh_with_an_empty_list_empties_the_cache() {
    let mut cache = CertificateCache::from_certificates(vec![held("A1", "K1")]);
    assert_eq!(cache.refresh(V3_KEY, Ok(CertificateResponse { data: Some(vec![]) })), Ok(()));
    assert!(cache.get("A1").is_none());
}

#[test]
fn a_failed_fetch_leaves_the_cache_as_it_was() {
    let mut cache = CertificateCache::from_certificates(vec![held("A1", "K1")]);
    assert_eq!(cache.refresh(V3_KEY, Err(PayError::Transport)), Err(PayError::CertificateFetch));
    assert_eq!(cache.get("A1").unwrap().public_key, "K1");
    assert_eq!(
        cache.refresh(V3_KEY, Ok(CertificateResponse { data: None })),
        Err(PayError::CertificateFetch)
    );
    assert_eq!(cache.get("A1").unwrap().public_key, "K1");
}

#[test]
fn one_certificate_that_does_not_open_voids_the_whole_batch() {
    let mut cache = CertificateCache::from_certificates(vec![held("A1", "K1")]);
    let fetched = CertificateResponse {
        data: Some(vec![
            sealed("B2", V3_KEY, b"K2"),
            sealed("C3", "another-key-another-key-another!", b"K3"),
            sealed("D4", V3_KEY, b"K4"),
        ]),
    };
    assert_eq!(cache.refresh(V3_KEY, Ok(fetched)), Err(PayError::CertificateFetch));
    assert_eq!(cache.get("A1").unwrap().public_key, "K1");
    assert!(cache.get("B2").is_none());
    assert!(cache.get("D4").is_none());
}

#[test]
fn a_certificate_that_is_not_text_voids_the_batch() {
    let mut cache = CertificateCache::new();
    let fetched = CertificateResponse { data: Some(vec![sealed("B2", V3_KEY, &[0xff, 0xfe])]) };
    assert_eq!(cache.refresh(V3_KEY, Ok(fetched)), Err(PayError::CertificateFetch));
    assert!(cache.get("B2").is_none());
}

#[test]
fn a_cache_can_be_built_apart_and_swapped_in() {
    let fetched = CertificateResponse { data: Some(vec![sealed("B2", V3_KEY, b"K2")]) };
    let fresh = CertificateCache::from_fetch(V3_KEY, Ok(fetched)).unwrap();
    assert_eq!(fresh.get("B2").unwrap().public_key, "K2");
    assert!(matches!(
        CertificateCache::from_fetch(V3_KEY, Err(PayError::Transport)),
        Err(PayError::CertificateFetch)
    ));
    let wrong_key = CertificateResponse { data: Some(vec![sealed("B2", V3_KEY, b"K2")]) };
    assert!(matches!(
        CertificateCache::from_fetch("0123456789abcdef0123456789abcdeX", Ok(wrong_key)),
        Err(PayError::CertificateFetch)
    ));
}
