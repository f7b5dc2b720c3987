use base64::engine::general_purpose::STANDARD;
use base64::Engine;
use rsa::pkcs1v15::{Signature, VerifyingKey};
use rsa::pkcs8::{DecodePublicKey, EncodePrivateKey, EncodePublicKey, LineEnding};
use rsa::sha2::Sha256;
use rsa::signature::Verifier;
use wechat_pay::error::PayError;
use wechat_pay::model::NativeParams;
use wechat_pay::pay::{Endpoint, WechatPay};
use wechat_pay::request::{
    build_authorization, build_invocation_signing_text, build_request_signing_text, HttpMethod,
};
use wechat_pay::response::{AppResponse, JsapiResponse, MicroResponse};
use wechat_pay::sign::rsa_sign;
use wechat_pay::stamp::Stamp;

const MERCHANT_P: &str = "e74a26ddea8b783b0096d36d455775b5e89f4cc2956ee324c45c2e3d1b65959d084295dd548d43f7b068e363e71e137ae5fffdf74bb53be241bb7d94fc299d85aa1d3171ad2a4623d68d367c203b05d0e6ffcf0b5864499b0da122aa8e7a1b10004f420aafe78d6881de3ab7d540ccea6f3373ab1d1f37ed29adf2c166d3170b";
const MERCHANT_Q: &str = "c3cf39f748c11b9a8491de2b8b1a1d2561f62a0b08c265199b17182425bf2fbbef3e705df258247e802ba8c7b8877cf64c4ef2b37d0a4d9bf6c67b74fdae53a1ea24d5ce9c9ee1c050812658a12196d5909a9890288fe5eada91eb93fb2b9cd4857370ec9e406ca15aa089f91eb73abfb5a922cc4fc17723e2682e0a4e9d0a9b";
const OTHER_P: &str = "f59f487ddebf38db271ddbdb978b8b5d5d84f89dc8fe92e7306dc7765dc362e793144bfd0524f800070c0ef26113297632c52d1f7d9d5e7e12138610a6ee19f4c6e4546283230a5242af0d4450a06f1b99e251bad06652a966dc52b5eccbe830b59c32d62447649d1aee166e0b084cbc66b60db56b0c972c86df0e5f49c18433";
const OTHER_Q: &str = "f12d8cd607cf585dc60124550cca3bd40d243786911e2a25ca2ac8a26848462ee55eae54256e7566441617279df6793c6de75d30de0d9e80e8f78cb994e1bddfc285db4152c51480a4676a5cd64544d1e0f044f948211b8128449b2b91db5162400c22be1bb78dda399b13d0a0ccf15de1dfa1d79f8d714347908403cab62a8b";
const NATIVE_ORDER_SIGNATURE: &str = "cTO0kpIz1uimbEQ4uhQr3UovoLmdYA8V5kw5J05d7nBoxfizGIxkQ9IXsQNSXkBrIPodvk5KfgrCFLKnghULxPD6WnjtZL5y7A6C8HBAHrn8ncHBahkNunlMIWu8ci4avlohczT2Ks8rkwVTTkUDA+x3wePZewhwLF7q5VSnVTwpG7Yy48mazH1bAMhPK3BLHrmMU3CxvlMGtHaavdvmL0WYnmEJ4TWIhSahNe64CHGqyc1USB2cuDH0MknumdXGj30DeIkc+X02pE77xhsXwP6hce4AnoYLXzDd6cQcuUpFROUkTTl7j7FnYbGHKoMHSh6HRsJot2CoJ8X7LUU3dA==";
const JSAPI_INVOCATION_SIGNATURE: &str = "WjrNIcQ8klKA6z9bqR8nNA3jjT4xqbB6RdRYqJccK45x/vJCW9te5TNnVeo2mNPJ9OSH+WfauxE3SuYBbmLd5xpc3+7o42ERaliDMi0Ms8NlW1Do6HG8SgzQBwtfgQJKnPPZSCWwkIN5/eXiDvb9ulVlTgBiuZBRELkdbskVb3Zr4YTVQlRzw08ig31BTu8qd2IvIBki6D/53VS235d+ZopKdD59Us+b2y6fua9M/x8DYCqnLARRavCF6s9GPvkgUXKcnS87pNclKL/RyiXHTd7yot9rGxTMkft2+jkf1JJNIx0sfpwwCU94sQpFWQmlky/nNmUJttaylfitEnQ7KA==";
const APP_INVOCATION_SIGNATURE: &str = "ivne+QozXHcDfaYFYOvC4Boj4EslACWFoMvoJ2mCMG6/k8TVTrzZH/AUFKwKZxtyC8eV/QlbGAxlx7N3yLNUsUxzqwDKojmxptH1eNWfIqRapIWvvzRS7L9AILd4CpLuxCyL5xFs/4yLI9xazYCqLfcD1D78vi3ASXRx458x5QHAU26PelRupPSjyXfl4cVerDIbXldZK8dmRXN3y9tSRyDVwEb+5pnbgzvO5C55jy39N0tuo26pdgcQNiYm4HszmDYYcLqm3piUT0UKED6Bdi05e0ObJQN1hnZcpMFnwKgjMlGJ0+4MEIEooicKyXdcX75F4d+xcvdpAbIfG4UUoQ==";

const NATIVE_ORDER_BODY: &str =
    r#"{"appid":"wx1","mchid":"160","out_trade_no":"ORD1","amount":{"total":1}}"#;
const NATIVE_ORDER_PATH: &str = "/v3/pay/transactions/native";
const PREPAY_ID: &str = "wx201410272009395522657a690389285100";

/// Builds a 2048-bit RSA key from its two primes and returns it as PKCS#8
/// PEM together with the PEM of its public half.
fn signing_key_pems(p_hex: &str, q_hex: &str) -> (String, String) {
    let p = rsa::BigUint::parse_bytes(p_hex.as_bytes(), 16).unwrap();
    let q = rsa::BigUint::parse_bytes(q_hex.as_bytes(), 16).unwrap();
    let key = rsa::RsaPrivateKey::from_p_q(p, q, rsa::BigUint::from(65537u32)).unwrap();
    let private_pem = key.to_pkcs8_pem(LineEnding::LF).unwrap().to_string();
    let public_pem = key.to_public_key().to_public_key_pem(LineEnding::LF).unwrap();
    (private_pem, public_pem)
}

fn stamp() -> Stamp {
    Stamp::new("1700000000", "abc123")
}

fn merchant() -> WechatPay {
    let (private_pem, _) = signing_key_pems(MERCHANT_P, MERCHANT_Q);
    WechatPay::new(
        "wx1",
        "160",
        &private_pem,
        "SERIAL01",
        "0123456789abcdef0123456789abcdef",
        "https://merchant.example/notify",
    )
}

/// Checks a base64 signature over `text` with the `rsa` crate itself.
fn accepted_by(public_pem: &str, text: &str, signature: &str) -> bool {
    let key = VerifyingKey::<Sha256>::from_public_key_pem(public_pem).unwrap();
    let bytes = STANDARD.decode(signature).unwrap();
    let signature = Signature::try_from(bytes.as_slice()).unwrap();
    key.verify(text.as_bytes(), &signature).is_ok()
}

#[test]
fn request_signing_text_is_the_five_fields_line_by_line() {
    let text = build_request_signing_text(
        HttpMethod::POST,
        NATIVE_ORDER_PATH,
        "1700000000",
        "abc123",
        NATIVE_ORDER_BODY,
    );
    assert_eq!(
        text,
        "POST\n/v3/pay/transactions/native\n1700000000\nabc123\n{\"appid\":\"wx1\",\"mchid\":\"160\",\"out_trade_no\":\"ORD1\",\"amount\":{\"total\":1}}\n"
    );
}

#[test]
fn request_signing_text_of_a_get_has_an_empty_body_line() {
    let text = build_request_signing_text(HttpMethod::GET, "/v3/certificates", "1", "n", "");
    assert_eq!(text, "GET\n/v3/certificates\n1\nn\n\n");
}

#[test]
fn request_signing_text_is_the_same_for_the_same_fields() {
    let a = build_request_signing_text(HttpMethod::PUT, "/p?q=1", "17", "nn", "{}");
    let b = build_request_signing_text(HttpMethod::PUT, "/p?q=1", "17", "nn", "{}");
    assert_eq!(a, b);
}

#[test]
fn invocation_signing_text_is_the_four_fields_line_by_line() {
    let text = build_invocation_signing_text("wx1", "1700000000", "abc123", "prepay_id=P1");
    assert_eq!(text, "wx1\n1700000000\nabc123\nprepay_id=P1\n");
}

#[test]
fn authorization_follows_the_grammar() {
    let value = build_authorization("1900000001", "NONCE", "1700000000", "SERIAL", "c2ln");
    assert_eq!(
        value,
        "WECHATPAY2-SHA256-RSA2048 mchid=\"1900000001\",nonce_str=\"NONCE\",timestamp=\"1700000000\",serial_no=\"SERIAL\",signature=\"c2ln\""
    );
}

#[test]
fn http_methods_are_named_as_on_the_wire() {
    assert_eq!(HttpMethod::GET.as_str(), "GET");
    assert_eq!(HttpMethod::POST.as_str(), "POST");
    assert_eq!(HttpMethod::PUT.as_str(), "PUT");
    assert_eq!(HttpMethod::DELETE.as_str(), "DELETE");
    assert_eq!(HttpMethod::PATCH.as_str(), "PATCH");
    assert_eq!(HttpMethod::PATCH.to_string(), "PATCH");
}

#[test]
fn endpoints_have_their_paths_methods_and_prefixes() {
    assert_eq!(Endpoint::H5.path(), "/v3/pay/transactions/h5");
    assert_eq!(Endpoint::App.path(), "/v3/pay/transactions/app");
    assert_eq!(Endpoint::Jsapi.path(), "/v3/pay/transactions/jsapi");
    assert_eq!(Endpoint::Micro.path(), "/v3/pay/transactions/jsapi");
    assert_eq!(Endpoint::Native.path(), "/v3/pay/transactions/native");
    assert_eq!(Endpoint::TransferBills.path(), "/v3/fund-app/mch-transfer/transfer-bills");
    assert_eq!(Endpoint::Certificates.path(), "/v3/certificates");
    assert_eq!(Endpoint::Certificates.method(), HttpMethod::GET);
    assert_eq!(Endpoint::Native.method(), HttpMethod::POST);
    assert_eq!(Endpoint::App.package_prefix(), Some(""));
    assert_eq!(Endpoint::Jsapi.package_prefix(), Some("prepay_id="));
    assert_eq!(Endpoint::Micro.package_prefix(), Some("prepay_id="));
    assert_eq!(Endpoint::Native.package_prefix(), None);
    assert_eq!(Endpoint::H5.package_prefix(), None);
}

#[test]
fn credentials_are_handed_back_as_given() {
    let pay = WechatPay::new("app", "mch", "key", "serial", "v3", "https://n.example");
    assert_eq!(pay.appid(), "app");
    assert_eq!(pay.mch_id(), "mch");
    assert_eq!(pay.serial_no(), "serial");
    assert_eq!(pay.v3_key(), "v3");
    assert_eq!(pay.notify_url(), "https://n.example");
    assert_eq!(pay.base_url(), "https://api.mch.weixin.qq.com");
    let pay = pay.with_base_url("http://localhost:8080");
    assert_eq!(pay.base_url(), "http://localhost:8080");
    assert_eq!(pay.appid(), "app");
}

#[test]
fn the_signature_of_a_native_order_is_the_expected_one() {
    let (private_pem, _) = signing_key_pems(MERCHANT_P, MERCHANT_Q);
    let text = build_request_signing_text(
        HttpMethod::POST,
        NATIVE_ORDER_PATH,
        "1700000000",
        "abc123",
        NATIVE_ORDER_BODY,
    );
    assert_eq!(rsa_sign(&private_pem, &text), Ok(NATIVE_ORDER_SIGNATURE.to_string()));
}

#[test]
fn a_signed_order_verifies_under_the_matching_key_only() {
    let (private_pem, public_pem) = signing_key_pems(MERCHANT_P, MERCHANT_Q);
    let (_, other_public_pem) = signing_key_pems(OTHER_P, OTHER_Q);
    let text = build_request_signing_text(
        HttpMethod::POST,
        NATIVE_ORDER_PATH,
        "1700000000",
        "abc123",
        NATIVE_ORDER_BODY,
    );
    let signature = rsa_sign(&private_pem, &text).unwrap();
    assert!(accepted_by(&public_pem, &text, &signature));
    assert!(!accepted_by(&other_public_pem, &text, &signature));
}

#[test]
fn signing_twice_gives_two_signatures_that_verify() {
    let (private_pem, public_pem) = signing_key_pems(MERCHANT_P, MERCHANT_Q);
    let text = build_request_signing_text(HttpMethod::DELETE, "/v3/x", "5", "n1", "");
    let first = rsa_sign(&private_pem, &text).unwrap();
    let second = rsa_sign(&private_pem, &text).unwrap();
    assert_eq!(first, second);
    assert!(accepted_by(&public_pem, &text, &first));
    assert!(accepted_by(&public_pem, &text, &second));
}

#[test]
fn a_changed_body_path_or_timestamp_voids_the_signature() {
    let (private_pem, public_pem) = signing_key_pems(MERCHANT_P, MERCHANT_Q);
    let sign_text = |path: &str, timestamp: &str, body: &str| {
        build_request_signing_text(HttpMethod::POST, path, timestamp, "abc123", body)
    };
    let original = sign_text(NATIVE_ORDER_PATH, "1700000000", NATIVE_ORDER_BODY);
    let signature = rsa_sign(&private_pem, &original).unwrap();
    assert!(accepted_by(&public_pem, &original, &signature));

    let body = NATIVE_ORDER_BODY.replace("ORD1", "ORD2");
    assert!(!accepted_by(&public_pem, &sign_text(NATIVE_ORDER_PATH, "1700000000", &body), &signature));
    let path = "/v3/pay/transactions/nativf";
    assert!(!accepted_by(&public_pem, &sign_text(path, "1700000000", NATIVE_ORDER_BODY), &signature));
    let timestamp = "1700000001";
    assert!(!accepted_by(
        &public_pem,
        &sign_text(NATIVE_ORDER_PATH, timestamp, NATIVE_ORDER_BODY),
        &signature
    ));
}

#[test]
fn a_malformed_key_cannot_sign() {
    assert_eq!(rsa_sign("not a key", "text"), Err(PayError::Signing));
    assert_eq!(rsa_sign("", ""), Err(PayError::Signing));
    let (_, public_pem) = signing_key_pems(MERCHANT_P, MERCHANT_Q);
    assert_eq!(rsa_sign(&public_pem, "text"), Err(PayError::Signing));
    let pay = WechatPay::new("wx1", "160", "not a key", "S", "k", "u");
    assert_eq!(pay.rsa_sign("text"), Err(PayError::Signing));
    assert!(matches!(
        pay.build_header(HttpMethod::GET, "/v3/certificates", "", &Stamp::new("1", "n")),
        Err(PayError::Signing)
    ));
    assert!(matches!(
        pay.build_request(HttpMethod::GET, "/v3/certificates", "", &Stamp::new("1", "n")),
        Err(PayError::Signing)
    ));
    assert!(matches!(pay.mut_sign_data("", "P", &Stamp::new("1", "n")), Err(PayError::Signing)));
}

#[test]
fn build_header_gives_authorization_and_the_fixed_headers() {
    let headers = merchant()
        .build_header(HttpMethod::POST, NATIVE_ORDER_PATH, NATIVE_ORDER_BODY, &stamp())
        .unwrap();
    assert_eq!(headers.len(), 4);
    assert_eq!(headers[0].name, "Authorization");
    assert_eq!(
        headers[0].value,
        format!(
            "WECHATPAY2-SHA256-RSA2048 mchid=\"160\",nonce_str=\"abc123\",timestamp=\"1700000000\",serial_no=\"SERIAL01\",signature=\"{}\"",
            NATIVE_ORDER_SIGNATURE
        )
    );
    assert_eq!(headers[1].name, "Accept");
    assert_eq!(headers[1].value, "application/json");
    assert_eq!(headers[2].name, "Content-Type");
    assert_eq!(headers[2].value, "application/json");
    assert_eq!(headers[3].name, "User-Agent");
    assert_eq!(headers[3].value, "wechat_pay");
}

#[test]
fn build_request_joins_base_address_and_path() {
    let request = merchant()
        .with_base_url("https://gateway.example")
        .build_request(HttpMethod::POST, NATIVE_ORDER_PATH, NATIVE_ORDER_BODY, &stamp())
        .unwrap();
    assert_eq!(request.method, HttpMethod::POST);
    assert_eq!(request.url, "https://gateway.example/v3/pay/transactions/native");
    assert_eq!(request.body, NATIVE_ORDER_BODY);
    assert_eq!(request.headers.len(), 4);
    assert!(request.headers[0].value.ends_with(&format!("signature=\"{}\"", NATIVE_ORDER_SIGNATURE)));
}

#[test]
fn test_native_pay() {
    let wechat_pay = merchant();
    let params = NativeParams::new(
        "appid",
        "mchid",
        "notify_url",
        "测试支付1分",
        "1243243",
        1.into(),
    );
    assert_eq!(params.description, "测试支付1分");
    assert_eq!(params.amount.total, 1);
    let (_, public_pem) = signing_key_pems(MERCHANT_P, MERCHANT_Q);
    let body = r#"{"appid":"appid","mchid":"mchid","description":"测试支付1分","notify_url":"notify_url","out_trade_no":"1243243","amount":{"total":1}}"#;
    let request = wechat_pay
        .build_request(
            Endpoint::Native.method(),
            Endpoint::Native.path(),
            body,
            &stamp(),
        )
        .expect("pay fail");
    assert_eq!(request.url, "https://api.mch.weixin.qq.com/v3/pay/transactions/native");
    let authorization = &request.headers[0].value;
    let start = authorization.find("signature=\"").unwrap() + "signature=\"".len();
    let signature = &authorization[start..authorization.len() - 1];
    let text = format!("POST\n/v3/pay/transactions/native\n1700000000\nabc123\n{}\n", body);
    assert!(accepted_by(&public_pem, &text, signature));
}

#[test]
fn mut_sign_data_signs_the_package_string() {
    let data = merchant().mut_sign_data("prepay_id=", PREPAY_ID, &stamp()).unwrap();
    assert_eq!(data.app_id, "wx1");
    assert_eq!(data.sign_type, "RSA");
    assert_eq!(data.package, format!("prepay_id={}", PREPAY_ID));
    assert_eq!(data.nonce_str, "abc123");
    assert_eq!(data.timestamp, "1700000000");
    assert_eq!(data.pay_sign, JSAPI_INVOCATION_SIGNATURE);
}

#[test]
fn invocation_signature_differs_from_the_request_signature() {
    let pay = merchant();
    let data = pay.mut_sign_data("", PREPAY_ID, &stamp()).unwrap();
    assert_eq!(data.package, PREPAY_ID);
    assert_eq!(data.pay_sign, APP_INVOCATION_SIGNATURE);
    assert_ne!(data.pay_sign, NATIVE_ORDER_SIGNATURE);
}

#[test]
fn sign_prepay_signs_only_where_the_call_needs_it() {
    let pay = merchant();
    let token = Some(PREPAY_ID.to_string());
    assert!(pay.sign_prepay(Endpoint::Native, &token, &stamp()).unwrap().is_none());
    assert!(pay.sign_prepay(Endpoint::Jsapi, &None, &stamp()).unwrap().is_none());
    let data = pay.sign_prepay(Endpoint::Jsapi, &token, &stamp()).unwrap().unwrap();
    assert_eq!(data.pay_sign, JSAPI_INVOCATION_SIGNATURE);
    let data = pay.sign_prepay(Endpoint::Micro, &token, &stamp()).unwrap().unwrap();
    assert_eq!(data.pay_sign, JSAPI_INVOCATION_SIGNATURE);
    let data = pay.sign_prepay(Endpoint::App, &token, &stamp()).unwrap().unwrap();
    assert_eq!(data.pay_sign, APP_INVOCATION_SIGNATURE);
}

#[test]
fn complete_app_pay_adds_the_invocation_signature() {
    let response = AppResponse {
        code: None,
        message: None,
        prepay_id: Some(PREPAY_ID.to_string()),
        sign_data: None,
    };
    let done = merchant().complete_app_pay(response, &stamp()).unwrap();
    assert_eq!(done.prepay_id.as_deref(), Some(PREPAY_ID));
    let data = done.sign_data.unwrap();
    assert_eq!(data.package, PREPAY_ID);
    assert_eq!(data.pay_sign, APP_INVOCATION_SIGNATURE);
}

#[test]
fn complete_jsapi_and_micro_pay_prefix_the_token() {
    let response = JsapiResponse {
        code: None,
        message: None,
        prepay_id: Some(PREPAY_ID.to_string()),
        sign_data: None,
    };
    let done = merchant().complete_jsapi_pay(response, &stamp()).unwrap();
    let data = done.sign_data.unwrap();
    assert_eq!(data.package, format!("prepay_id={}", PREPAY_ID));
    assert_eq!(data.pay_sign, JSAPI_INVOCATION_SIGNATURE);

    let response = MicroResponse {
        code: None,
        message: None,
        prepay_id: Some(PREPAY_ID.to_string()),
        sign_data: None,
    };
    let done = merchant().complete_micro_pay(response, &stamp()).unwrap();
    let data = done.sign_data.unwrap();
    assert_eq!(data.package, format!("prepay_id={}", PREPAY_ID));
    assert_eq!(data.pay_sign, JSAPI_INVOCATION_SIGNATURE);
}

#[test]
fn a_response_without_token_stays_as_it_came() {
    let response = AppResponse {
        code: Some("PARAM_ERROR".to_string()),
        message: Some("bad".to_string()),
        prepay_id: None,
        sign_data: None,
    };
    let done = merchant().complete_app_pay(response, &stamp()).unwrap();
    assert_eq!(done.code.as_deref(), Some("PARAM_ERROR"));
    assert_eq!(done.message.as_deref(), Some("bad"));
    assert!(done.prepay_id.is_none());
    assert!(done.sign_data.is_none());
}

#[test]
fn completing_with_a_malformed_key_fails_with_signing() {
    let pay = WechatPay::new("wx1", "160", "not a key", "S", "k", "u");
    let response = JsapiResponse {
        code: None,
        message: None,
        prepay_id: Some(PREPAY_ID.to_string()),
        sign_data: None,
    };
    assert!(matches!(pay.complete_jsapi_pay(response, &Stamp::new("1", "n")), Err(PayError::Signing)));
}
