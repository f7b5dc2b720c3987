use wechat_pay::cert::CertificateCache;
use wechat_pay::error::PayError;
use wechat_pay::model::{WechatPayDecodeData, WechatPayNotify};
use wechat_pay::response::{
    AppResponse, CertificateResponse, H5Response, JsapiResponse, MicroResponse, NativeResponse,
    ResponseTrait, TransferBillsResponse,
};

#[test]
fn a_native_answer_is_read_member_by_member() {
    let answer = NativeResponse::from_json(r#"{"code_url":"weixin://wxpay/bizpayurl?pr=p4lpSuKzz"}"#)
        .unwrap();
    assert_eq!(answer.code_url.as_deref(), Some("weixin://wxpay/bizpayurl?pr=p4lpSuKzz"));
    assert!(answer.code.is_none());
    assert!(answer.message.is_none());

    let answer =
        NativeResponse::from_json(r#"{"code":"PARAM_ERROR","message":"参数错误","code_url":null}"#)
            .unwrap();
    assert_eq!(answer.code.as_deref(), Some("PARAM_ERROR"));
    assert_eq!(answer.message.as_deref(), Some("参数错误"));
    assert!(answer.code_url.is_none());
}

#[test]
fn members_that_no_shape_names_are_passed_over() {
    let answer = H5Response::from_json(r#"{"h5_url":"https://wx.tenpay.com/x","extra":[1,2,{}]}"#)
        .unwrap();
    assert_eq!(answer.h5_url.as_deref(), Some("https://wx.tenpay.com/x"));
    assert!(H5Response::from_json("{}").unwrap().h5_url.is_none());
}

#[test]
fn escapes_in_strings_are_resolved() {
    let answer = NativeResponse::from_json(r#"{"message":"a\"b\\c\n微信"}"#).unwrap();
    assert_eq!(answer.message.as_deref(), Some("a\"b\\c\n微信"));
}

#[test]
fn text_that_is_not_json_of_the_shape_is_a_serialization_error() {
    for body in [
        "",
        "not json",
        "[]",
        "null",
        "\"text\"",
        "17",
        r#"{"code_url":17}"#,
        r#"{"code_url":{"a":1}}"#,
        r#"{"code_url":["a"]}"#,
        r#"{"code_url":true}"#,
        r#"{"code_url":"x"} trailing"#,
        r#"{"code_url":"x""#,
    ] {
        assert!(
            matches!(NativeResponse::from_json(body), Err(PayError::Serialization)),
            "{}",
            body
        );
    }
}

#[test]
fn a_prepay_answer_carries_its_token() {
    let body = r#"{"prepay_id":"wx201410272009395522657a690389285100"}"#;
    let answer = JsapiResponse::from_json(body).unwrap();
    assert_eq!(answer.prepay_id.as_deref(), Some("wx201410272009395522657a690389285100"));
    assert!(answer.sign_data.is_none());
    let answer = AppResponse::from_json(body).unwrap();
    assert_eq!(answer.prepay_id.as_deref(), Some("wx201410272009395522657a690389285100"));
    let answer = MicroResponse::from_json(body).unwrap();
    assert_eq!(answer.prepay_id.as_deref(), Some("wx201410272009395522657a690389285100"));
}

#[test]
fn sign_data_is_read_where_it_is_there() {
    let body = r#"{"prepay_id":"P","sign_data":{"app_id":"wx1","sign_type":"RSA","package":"prepay_id=P","nonce_str":"N","timestamp":"1","pay_sign":"c2ln"}}"#;
    let data = JsapiResponse::from_json(body).unwrap().sign_data.unwrap();
    assert_eq!(data.app_id, "wx1");
    assert_eq!(data.sign_type, "RSA");
    assert_eq!(data.package, "prepay_id=P");
    assert_eq!(data.nonce_str, "N");
    assert_eq!(data.timestamp, "1");
    assert_eq!(data.pay_sign, "c2ln");

    assert!(JsapiResponse::from_json(r#"{"sign_data":null}"#).unwrap().sign_data.is_none());
    assert!(matches!(
        JsapiResponse::from_json(r#"{"sign_data":{"app_id":"wx1"}}"#),
        Err(PayError::Serialization)
    ));
    assert!(matches!(
        AppResponse::from_json(r#"{"sign_data":"text"}"#),
        Err(PayError::Serialization)
    ));
}

#[test]
fn a_certificate_list_is_read_in_its_order() {
    let body = r#"{"data":[
        {"serial_no":"A1","effective_time":"e1","expire_time":"x1",
         "encrypt_certificate":{"algorithm":"AEAD_AES_256_GCM","nonce":"n1","associated_data":"certificate","ciphertext":"c1"}},
        {"serial_no":"B2","effective_time":"e2","expire_time":"x2",
         "encrypt_certificate":{"algorithm":"AEAD_AES_256_GCM","nonce":"n2","associated_data":"certificate","ciphertext":"c2"}}
    ]}"#;
    let list = CertificateResponse::from_json(body).unwrap().data.unwrap();
    assert_eq!(list.len(), 2);
    assert_eq!(list[0].serial_no, "A1");
    assert_eq!(list[0].effective_time, "e1");
    assert_eq!(list[0].expire_time, "x1");
    assert_eq!(list[0].encrypt_certificate.algorithm, "AEAD_AES_256_GCM");
    assert_eq!(list[0].encrypt_certificate.nonce, "n1");
    assert_eq!(list[0].encrypt_certificate.associated_data, "certificate");
    assert_eq!(list[0].encrypt_certificate.ciphertext, "c1");
    assert_eq!(list[1].serial_no, "B2");
    assert_eq!(list[1].encrypt_certificate.ciphertext, "c2");
}

#[test]
fn a_long_certificate_list_keeps_every_entry() {
    let entry = |i: usize| {
        format!(
            r#"{{"serial_no":"S{}","effective_time":"e","expire_time":"x","encrypt_certificate":{{"algorithm":"a","nonce":"n","associated_data":"d","ciphertext":"c{}"}}}}"#,
            i, i
        )
    };
    let entries: Vec<String> = (0..123).map(entry).collect();
    let body = format!(r#"{{"data":[{}]}}"#, entries.join(","));
    let list = CertificateResponse::from_json(&body).unwrap().data.unwrap();
    assert_eq!(list.len(), 123);
    for (i, certificate) in list.iter().enumerate() {
        assert_eq!(certificate.serial_no, format!("S{}", i));
        assert_eq!(certificate.encrypt_certificate.ciphertext, format!("c{}", i));
    }
}

#[test]
fn a_certificate_list_may_be_empty_or_left_out() {
    assert_eq!(CertificateResponse::from_json(r#"{"data":[]}"#).unwrap().data.unwrap().len(), 0);
    assert!(CertificateResponse::from_json(r#"{"data":null}"#).unwrap().data.is_none());
    assert!(CertificateResponse::from_json(r#"{"code":"SIGN_ERROR"}"#).unwrap().data.is_none());
}

#[test]
fn a_certificate_list_with_a_broken_entry_is_refused() {
    assert!(matches!(
        CertificateResponse::from_json(r#"{"data":{"serial_no":"A1"}}"#),
        Err(PayError::Serialization)
    ));
    assert!(matches!(
        CertificateResponse::from_json(r#"{"data":[{"serial_no":"A1"}]}"#),
        Err(PayError::Serialization)
    ));
    let body = r#"{"data":[
        {"serial_no":"A1","effective_time":"e1","expire_time":"x1",
         "encrypt_certificate":{"algorithm":"a","nonce":"n1","associated_data":"d","ciphertext":"c1"}},
        {"serial_no":"B2","effective_time":"e2","expire_time":"x2",
         "encrypt_certificate":{"algorithm":"a","nonce":"n2","associated_data":"d"}}
    ]}"#;
    assert!(matches!(CertificateResponse::from_json(body), Err(PayError::Serialization)));
}

#[test]
fn a_list_that_cannot_be_read_leaves_the_cache_as_it_was() {
    let mut cache = CertificateCache::new();
    let fetched = CertificateResponse::from_json("<html>502</html>");
    assert_eq!(
        cache.refresh("0123456789abcdef0123456789abcdef", fetched),
        Err(PayError::CertificateFetch)
    );
    assert!(cache.get("A1").is_none());
}

#[test]
fn a_transfer_answer_is_read_with_its_detail() {
    let body = r#"{"out_bill_no":"B1","transfer_bill_no":"T1","create_time":"2025-01-01T00:00:00+08:00","state":"ACCEPTED","package_info":"pkg"}"#;
    let answer = TransferBillsResponse::from_json(body).unwrap();
    assert_eq!(answer.out_bill_no, "B1");
    assert_eq!(answer.transfer_bill_no, "T1");
    assert_eq!(answer.create_time, "2025-01-01T00:00:00+08:00");
    assert_eq!(answer.state, "ACCEPTED");
    assert_eq!(answer.package_info.as_deref(), Some("pkg"));
    assert!(answer.fail_reason.is_none());
    assert!(answer.detail.is_none());
    assert!(answer.code.is_none());

    let body = r#"{"code":"PARAM_ERROR","message":"m","detail":{"field":"/amount","value":{"total": -1},"issue":"too small","location":"body"},"out_bill_no":"B1","transfer_bill_no":"","create_time":"","state":"FAIL","fail_reason":"r"}"#;
    let answer = TransferBillsResponse::from_json(body).unwrap();
    let detail = answer.detail.unwrap();
    assert_eq!(detail.field.as_deref(), Some("/amount"));
    assert_eq!(detail.value.as_deref(), Some(r#"{"total":-1}"#));
    assert_eq!(detail.issue.as_deref(), Some("too small"));
    assert_eq!(detail.location.as_deref(), Some("body"));
    assert_eq!(answer.fail_reason.as_deref(), Some("r"));

    let body = r#"{"detail":{"value":"text"},"out_bill_no":"B1","transfer_bill_no":"","create_time":"","state":"FAIL"}"#;
    let detail = TransferBillsResponse::from_json(body).unwrap().detail.unwrap();
    assert_eq!(detail.value.as_deref(), Some("\"text\""));
    let body = r#"{"detail":{"value":null},"out_bill_no":"B1","transfer_bill_no":"","create_time":"","state":"FAIL"}"#;
    assert!(TransferBillsResponse::from_json(body).unwrap().detail.unwrap().value.is_none());

    assert!(matches!(
        TransferBillsResponse::from_json(r#"{"out_bill_no":"B1"}"#),
        Err(PayError::Serialization)
    ));
}

#[test]
fn a_notification_is_read_with_its_resource() {
    let body = r#"{"id":"EV-1","create_time":"2015-05-20T13:29:35+08:00","event_type":"TRANSACTION.SUCCESS","resource_type":"encrypt-resource","resource":{"algorithm":"AEAD_AES_256_GCM","ciphertext":"Y2lwaGVy","associated_data":"transaction","original_type":"transaction","nonce":"0123456789ab"},"summary":"支付成功"}"#;
    let notify = WechatPayNotify::from_json(body).unwrap();
    assert_eq!(notify.id, "EV-1");
    assert_eq!(notify.create_time, "2015-05-20T13:29:35+08:00");
    assert_eq!(notify.event_type, "TRANSACTION.SUCCESS");
    assert_eq!(notify.resource_type, "encrypt-resource");
    assert_eq!(notify.summary, "支付成功");
    assert_eq!(notify.resource.algorithm, "AEAD_AES_256_GCM");
    assert_eq!(notify.resource.ciphertext, "Y2lwaGVy");
    assert_eq!(notify.resource.associated_data.as_deref(), Some("transaction"));
    assert_eq!(notify.resource.original_type, "transaction");
    assert_eq!(notify.resource.nonce, "0123456789ab");

    let without = body.replace(r#""associated_data":"transaction","#, "");
    assert!(WechatPayNotify::from_json(&without).unwrap().resource.associated_data.is_none());
    let without = body.replace(r#","summary":"支付成功""#, "");
    assert!(matches!(WechatPayNotify::from_json(&without), Err(PayError::Serialization)));
    let without = body.replace(r#""nonce":"0123456789ab""#, r#""nonce":12"#);
    assert!(matches!(WechatPayNotify::from_json(&without), Err(PayError::Serialization)));
}

#[test]
fn an_event_is_read_with_payer_and_amount() {
    let body = r#"{"mchid":"160","appid":"wx1","out_trade_no":"ORD1","transaction_id":"42","trade_type":"JSAPI","trade_state":"SUCCESS","trade_state_desc":"ok","bank_type":"OTHERS","attach":"a","success_time":"t","payer":{"openid":"open-1"},"amount":{"total":-2147483648}}"#;
    let event = WechatPayDecodeData::from_json(body).unwrap();
    assert_eq!(event.mchid, "160");
    assert_eq!(event.appid, "wx1");
    assert_eq!(event.out_trade_no, "ORD1");
    assert_eq!(event.transaction_id, "42");
    assert_eq!(event.trade_type, "JSAPI");
    assert_eq!(event.trade_state, "SUCCESS");
    assert_eq!(event.trade_state_desc, "ok");
    assert_eq!(event.bank_type, "OTHERS");
    assert_eq!(event.attach, "a");
    assert_eq!(event.success_time, "t");
    assert_eq!(event.payer.openid, "open-1");
    assert_eq!(event.amount.total, i32::MIN);
}

#[test]
fn an_amount_must_be_a_whole_number_of_32_bits() {
    let event = |total: &str| {
        format!(
            r#"{{"mchid":"160","appid":"wx1","out_trade_no":"ORD1","transaction_id":"42","trade_type":"JSAPI","trade_state":"SUCCESS","trade_state_desc":"ok","bank_type":"OTHERS","attach":"a","success_time":"t","payer":{{"openid":"open-1"}},"amount":{{"total":{}}}}}"#,
            total
        )
    };
    assert_eq!(WechatPayDecodeData::from_json(&event("2147483647")).unwrap().amount.total, i32::MAX);
    assert_eq!(WechatPayDecodeData::from_json(&event("0")).unwrap().amount.total, 0);
    for total in ["2147483648", "-2147483649", "1.0", "1e2", "\"1\"", "null", "18446744073709551615"] {
        assert!(
            matches!(WechatPayDecodeData::from_json(&event(total)), Err(PayError::Serialization)),
            "{}",
            total
        );
    }
}
