//! The JSON shapes that come from the gateway: which members each must
//! hold, which it may leave out, and what is made of them. A shape that is
//! not met is a `PayError::Serialization`; members that no shape names are
//! passed over.

use crate::error::PayError;
use crate::model::{
    AmountInfo, PayerInfo, WechatPayDecodeData, WechatPayNotify, WechatPayNotifySource,
};
use crate::parse::{
    below, i32_in, is_opt_list, is_opt_list_of, is_opt_raw_of, is_opt_shape, is_opt_shape_of,
    is_opt_text, is_opt_text_of, is_text, json_at, json_item, json_raw, read_i32, read_opt_list,
    read_opt_raw, read_opt_shape, read_opt_text, read_shape, read_text, text_in, JsonItem,
    JsonShape,
};
use crate::response::{
    AppResponse, Certificate, CertificateResponse, EncryptCertificate, H5Response, JsapiResponse,
    MicroResponse, NativeResponse, ResponseTrait, SignData, TransferBillsResponse,
    WechatPayErrorDetail,
};
use vstd::prelude::*;
use vstd::string::*;

verus! {

/// Reads a whole document as one value of a shape.
fn read_document<T: JsonShape>(body: &str) -> (res: Result<T, PayError>)
    ensures
        match res {
            Ok(value) => T::readable(body@, Seq::empty()) && value.read_from(body@, Seq::empty()),
            Err(e) => e == PayError::Serialization && !T::readable(body@, Seq::empty()),
        },
{
    proof {
        reveal_strlit("");
    }
    assert(""@ =~= Seq::<char>::empty());
    match T::read(body, "") {
        Some(value) => Ok(value),
        None => Err(PayError::Serialization),
    }
}

/// The shape of the answer to a native order.
impl JsonShape for NativeResponse {
    open spec fn readable(document: Seq<char>, at: Seq<char>) -> bool {
        &&& json_item(document, at) is Object
        &&& is_opt_text(json_item(document, below(at, "code"@)))
        &&& is_opt_text(json_item(document, below(at, "message"@)))
        &&& is_opt_text(json_item(document, below(at, "code_url"@)))
    }

    open spec fn read_from(&self, document: Seq<char>, at: Seq<char>) -> bool {
        &&& is_opt_text_of(json_item(document, below(at, "code"@)), self.code)
        &&& is_opt_text_of(json_item(document, below(at, "message"@)), self.message)
        &&& is_opt_text_of(json_item(document, below(at, "code_url"@)), self.code_url)
    }

    fn read(document: &str, at: &str) -> (res: Option<Self>) {
        match json_at(document, at) {
            JsonItem::Object => {},
            _ => {
                return None;
            },
        }
        let code = read_opt_text(document, at, "code")?;
        let message = read_opt_text(document, at, "message")?;
        let code_url = read_opt_text(document, at, "code_url")?;
        Some(NativeResponse { code, message, code_url })
    }
}

impl ResponseTrait for NativeResponse {
    fn from_json(body: &str) -> (res: Result<Self, PayError>) {
        read_document(body)
    }
}

/// The shape of an invocation signature.
impl JsonShape for SignData {
    open spec fn readable(document: Seq<char>, at: Seq<char>) -> bool {
        &&& json_item(document, at) is Object
        &&& text_in(json_item(document, below(at, "app_id"@))) is Some
        &&& text_in(json_item(document, below(at, "sign_type"@))) is Some
        &&& text_in(json_item(document, below(at, "package"@))) is Some
        &&& text_in(json_item(document, below(at, "nonce_str"@))) is Some
        &&& text_in(json_item(document, below(at, "timestamp"@))) is Some
        &&& text_in(json_item(document, below(at, "pay_sign"@))) is Some
    }

    open spec fn read_from(&self, document: Seq<char>, at: Seq<char>) -> bool {
        &&& is_text(json_item(document, below(at, "app_id"@)), self.app_id)
        &&& is_text(json_item(document, below(at, "sign_type"@)), self.sign_type)
        &&& is_text(json_item(document, below(at, "package"@)), self.package)
        &&& is_text(json_item(document, below(at, "nonce_str"@)), self.nonce_str)
        &&& is_text(json_item(document, below(at, "timestamp"@)), self.timestamp)
        &&& is_text(json_item(document, below(at, "pay_sign"@)), self.pay_sign)
    }

    fn read(document: &str, at: &str) -> (res: Option<Self>) {
        match json_at(document, at) {
            JsonItem::Object => {},
            _ => {
                return None;
            },
        }
        let app_id = read_text(document, at, "app_id")?;
        let sign_type = read_text(document, at, "sign_type")?;
        let package = read_text(document, at, "package")?;
        let nonce_str = read_text(document, at, "nonce_str")?;
        let timestamp = read_text(document, at, "timestamp")?;
        let pay_sign = read_text(document, at, "pay_sign")?;
        Some(SignData { app_id, sign_type, package, nonce_str, timestamp, pay_sign })
    }
}

/// The shape of the answer to a JSAPI order.
impl JsonShape for JsapiResponse {
    open spec fn readable(document: Seq<char>, at: Seq<char>) -> bool {
        &&& json_item(document, at) is Object
        &&& is_opt_text(json_item(document, below(at, "code"@)))
        &&& is_opt_text(json_item(document, below(at, "message"@)))
        &&& is_opt_text(json_item(document, below(at, "prepay_id"@)))
        &&& is_opt_shape::<SignData>(document, below(at, "sign_data"@))
    }

    open spec fn read_from(&self, document: Seq<char>, at: Seq<char>) -> bool {
        &&& is_opt_text_of(json_item(document, below(at, "code"@)), self.code)
        &&& is_opt_text_of(json_item(document, below(at, "message"@)), self.message)
        &&& is_opt_text_of(json_item(document, below(at, "prepay_id"@)), self.prepay_id)
        &&& is_opt_shape_of(self.sign_data, document, below(at, "sign_data"@))
    }

    fn read(document: &str, at: &str) -> (res: Option<Self>) {
        match json_at(document, at) {
            JsonItem::Object => {},
            _ => {
                return None;
            },
        }
        let code = read_opt_text(document, at, "code")?;
        let message = read_opt_text(document, at, "message")?;
        let prepay_id = read_opt_text(document, at, "prepay_id")?;
        let sign_data = read_opt_shape(document, at, "sign_data")?;
        Some(JsapiResponse { code, message, prepay_id, sign_data })
    }
}

impl ResponseTrait for JsapiResponse {
    fn from_json(body: &str) -> (res: Result<Self, PayError>) {
        read_document(body)
    }
}

/// The shape of the answer to an app order.
impl JsonShape for AppResponse {
    open spec fn readable(document: Seq<char>, at: Seq<char>) -> bool {
        &&& json_item(document, at) is Object
        &&& is_opt_text(json_item(document, below(at, "code"@)))
        &&& is_opt_text(json_item(document, below(at, "message"@)))
        &&& is_opt_text(json_item(document, below(at, "prepay_id"@)))
        &&& is_opt_shape::<SignData>(document, below(at, "sign_data"@))
    }

    open spec fn read_from(&self, document: Seq<char>, at: Seq<char>) -> bool {
        &&& is_opt_text_of(json_item(document, below(at, "code"@)), self.code)
        &&& is_opt_text_of(json_item(document, below(at, "message"@)), self.message)
        &&& is_opt_text_of(json_item(document, below(at, "prepay_id"@)), self.prepay_id)
        &&& is_opt_shape_of(self.sign_data, document, below(at, "sign_data"@))
    }

    fn read(document: &str, at: &str) -> (res: Option<Self>) {
        match json_at(document, at) {
            JsonItem::Object => {},
            _ => {
                return None;
            },
        }
        let code = read_opt_text(document, at, "code")?;
        let message = read_opt_text(document, at, "message")?;
        let prepay_id = read_opt_text(document, at, "prepay_id")?;
        let sign_data = read_opt_shape(document, at, "sign_data")?;
        Some(AppResponse { code, message, prepay_id, sign_data })
    }
}

impl ResponseTrait for AppResponse {
    fn from_json(body: &str) -> (res: Result<Self, PayError>) {
        read_document(body)
    }
}

/// The shape of the answer to a mini-program order.
impl JsonShape for MicroResponse {
    open spec fn readable(document: Seq<char>, at: Seq<char>) -> bool {
        &&& json_item(document, at) is Object
        &&& is_opt_text(json_item(document, below(at, "code"@)))
        &&& is_opt_text(json_item(document, below(at, "message"@)))
        &&& is_opt_text(json_item(document, below(at, "prepay_id"@)))
        &&& is_opt_shape::<SignData>(document, below(at, "sign_data"@))
    }

    open spec fn read_from(&self, document: Seq<char>, at: Seq<char>) -> bool {
        &&& is_opt_text_of(json_item(document, below(at, "code"@)), self.code)
        &&& is_opt_text_of(json_item(document, below(at, "message"@)), self.message)
        &&& is_opt_text_of(json_item(document, below(at, "prepay_id"@)), self.prepay_id)
        &&& is_opt_shape_of(self.sign_data, document, below(at, "sign_data"@))
    }

    fn read(document: &str, at: &str) -> (res: Option<Self>) {
        match json_at(document, at) {
            JsonItem::Object => {},
            _ => {
                return None;
            },
        }
        let code = read_opt_text(document, at, "code")?;
        let message = read_opt_text(document, at, "message")?;
        let prepay_id = read_opt_text(document, at, "prepay_id")?;
        let sign_data = read_opt_shape(document, at, "sign_data")?;
        Some(MicroResponse { code, message, prepay_id, sign_data })
    }
}

impl ResponseTrait for MicroResponse {
    fn from_json(body: &str) -> (res: Result<Self, PayError>) {
        read_document(body)
    }
}

/// The shape of the answer to an H5 order.
impl JsonShape for H5Response {
    open spec fn readable(document: Seq<char>, at: Seq<char>) -> bool {
        &&& json_item(document, at) is Object
        &&& is_opt_text(json_item(document, below(at, "code"@)))
        &&& is_opt_text(json_item(document, below(at, "message"@)))
        &&& is_opt_text(json_item(document, below(at, "h5_url"@)))
    }

    open spec fn read_from(&self, document: Seq<char>, at: Seq<char>) -> bool {
        &&& is_opt_text_of(json_item(document, below(at, "code"@)), self.code)
        &&& is_opt_text_of(json_item(document, below(at, "message"@)), self.message)
        &&& is_opt_text_of(json_item(document, below(at, "h5_url"@)), self.h5_url)
    }

    fn read(document: &str, at: &str) -> (res: Option<Self>) {
        match json_at(document, at) {
            JsonItem::Object => {},
            _ => {
                return None;
            },
        }
        let code = read_opt_text(document, at, "code")?;
        let message = read_opt_text(document, at, "message")?;
        let h5_url = read_opt_text(document, at, "h5_url")?;
        Some(H5Response { code, message, h5_url })
    }
}

impl ResponseTrait for H5Response {
    fn from_json(body: &str) -> (res: Result<Self, PayError>) {
        read_document(body)
    }
}

/// The shape of a sealed certificate.
impl JsonShape for EncryptCertificate {
    open spec fn readable(document: Seq<char>, at: Seq<char>) -> bool {
        &&& json_item(document, at) is Object
        &&& text_in(json_item(document, below(at, "algorithm"@))) is Some
        &&& text_in(json_item(document, below(at, "nonce"@))) is Some
        &&& text_in(json_item(document, below(at, "associated_data"@))) is Some
        &&& text_in(json_item(document, below(at, "ciphertext"@))) is Some
    }

    open spec fn read_from(&self, document: Seq<char>, at: Seq<char>) -> bool {
        &&& is_text(json_item(document, below(at, "algorithm"@)), self.algorithm)
        &&& is_text(json_item(document, below(at, "nonce"@)), self.nonce)
        &&& is_text(json_item(document, below(at, "associated_data"@)), self.associated_data)
        &&& is_text(json_item(document, below(at, "ciphertext"@)), self.ciphertext)
    }

    fn read(document: &str, at: &str) -> (res: Option<Self>) {
        match json_at(document, at) {
            JsonItem::Object => {},
            _ => {
                return None;
            },
        }
        let algorithm = read_text(document, at, "algorithm")?;
        let nonce = read_text(document, at, "nonce")?;
        let associated_data = read_text(document, at, "associated_data")?;
        let ciphertext = read_text(document, at, "ciphertext")?;
        Some(EncryptCertificate { algorithm, nonce, associated_data, ciphertext })
    }
}

/// The shape of an entry of the certificate list.
impl JsonShape for Certificate {
    open spec fn readable(document: Seq<char>, at: Seq<char>) -> bool {
        &&& json_item(document, at) is Object
        &&& text_in(json_item(document, below(at, "serial_no"@))) is Some
        &&& text_in(json_item(document, below(at, "effective_time"@))) is Some
        &&& text_in(json_item(document, below(at, "expire_time"@))) is Some
        &&& EncryptCertificate::readable(document, below(at, "encrypt_certificate"@))
    }

    open spec fn read_from(&self, document: Seq<char>, at: Seq<char>) -> bool {
        &&& is_text(json_item(document, below(at, "serial_no"@)), self.serial_no)
        &&& is_text(json_item(document, below(at, "effective_time"@)), self.effective_time)
        &&& is_text(json_item(document, below(at, "expire_time"@)), self.expire_time)
        &&& self.encrypt_certificate.read_from(document, below(at, "encrypt_certificate"@))
    }

    fn read(document: &str, at: &str) -> (res: Option<Self>) {
        match json_at(document, at) {
            JsonItem::Object => {},
            _ => {
                return None;
            },
        }
        let serial_no = read_text(document, at, "serial_no")?;
        let effective_time = read_text(document, at, "effective_time")?;
        let expire_time = read_text(document, at, "expire_time")?;
        let encrypt_certificate = read_shape(document, at, "encrypt_certificate")?;
        Some(Certificate { serial_no, effective_time, expire_time, encrypt_certificate })
    }
}

/// The shape of the certificate list.
impl JsonShape for CertificateResponse {
    open spec fn readable(document: Seq<char>, at: Seq<char>) -> bool {
        &&& json_item(document, at) is Object
        &&& is_opt_list::<Certificate>(document, below(at, "data"@))
    }

    open spec fn read_from(&self, document: Seq<char>, at: Seq<char>) -> bool {
        &&& is_opt_list_of(self.data, document, below(at, "data"@))
    }

    fn read(document: &str, at: &str) -> (res: Option<Self>) {
        match json_at(document, at) {
            JsonItem::Object => {},
            _ => {
                return None;
            },
        }
        let data = read_opt_list(document, at, "data")?;
        Some(CertificateResponse { data })
    }
}

impl ResponseTrait for CertificateResponse {
    fn from_json(body: &str) -> (res: Result<Self, PayError>) {
        read_document(body)
    }
}

/// The shape of the detail of an error.
impl JsonShape for WechatPayErrorDetail {
    open spec fn readable(document: Seq<char>, at: Seq<char>) -> bool {
        &&& json_item(document, at) is Object
        &&& is_opt_text(json_item(document, below(at, "field"@)))
        &&& is_opt_text(json_item(document, below(at, "issue"@)))
        &&& is_opt_text(json_item(document, below(at, "location"@)))
    }

    open spec fn read_from(&self, document: Seq<char>, at: Seq<char>) -> bool {
        &&& is_opt_text_of(json_item(document, below(at, "field"@)), self.field)
        &&& is_opt_raw_of(json_raw(document, below(at, "value"@)), self.value)
        &&& is_opt_text_of(json_item(document, below(at, "issue"@)), self.issue)
        &&& is_opt_text_of(json_item(document, below(at, "location"@)), self.location)
    }

    fn read(document: &str, at: &str) -> (res: Option<Self>) {
        match json_at(document, at) {
            JsonItem::Object => {},
            _ => {
                return None;
            },
        }
        let field = read_opt_text(document, at, "field")?;
        let value = read_opt_raw(document, at, "value");
        let issue = read_opt_text(document, at, "issue")?;
        let location = read_opt_text(document, at, "location")?;
        Some(WechatPayErrorDetail { field, value, issue, location })
    }
}

/// The shape of the answer to a transfer.
impl JsonShape for TransferBillsResponse {
    open spec fn readable(document: Seq<char>, at: Seq<char>) -> bool {
        &&& json_item(document, at) is Object
        &&& is_opt_text(json_item(document, below(at, "code"@)))
        &&& is_opt_text(json_item(document, below(at, "message"@)))
        &&& is_opt_shape::<WechatPayErrorDetail>(document, below(at, "detail"@))
        &&& text_in(json_item(document, below(at, "out_bill_no"@))) is Some
        &&& text_in(json_item(document, below(at, "transfer_bill_no"@))) is Some
        &&& text_in(json_item(document, below(at, "create_time"@))) is Some
        &&& text_in(json_item(document, below(at, "state"@))) is Some
        &&& is_opt_text(json_item(document, below(at, "fail_reason"@)))
        &&& is_opt_text(json_item(document, below(at, "package_info"@)))
    }

    open spec fn read_from(&self, document: Seq<char>, at: Seq<char>) -> bool {
        &&& is_opt_text_of(json_item(document, below(at, "code"@)), self.code)
        &&& is_opt_text_of(json_item(document, below(at, "message"@)), self.message)
        &&& is_opt_shape_of(self.detail, document, below(at, "detail"@))
        &&& is_text(json_item(document, below(at, "out_bill_no"@)), self.out_bill_no)
        &&& is_text(json_item(document, below(at, "transfer_bill_no"@)), self.transfer_bill_no)
        &&& is_text(json_item(document, below(at, "create_time"@)), self.create_time)
        &&& is_text(json_item(document, below(at, "state"@)), self.state)
        &&& is_opt_text_of(json_item(document, below(at, "fail_reason"@)), self.fail_reason)
        &&& is_opt_text_of(json_item(document, below(at, "package_info"@)), self.package_info)
    }

    fn read(document: &str, at: &str) -> (res: Option<Self>) {
        match json_at(document, at) {
            JsonItem::Object => {},
            _ => {
                return None;
            },
        }
        let code = read_opt_text(document, at, "code")?;
        let message = read_opt_text(document, at, "message")?;
        let detail = read_opt_shape(document, at, "detail")?;
        let out_bill_no = read_text(document, at, "out_bill_no")?;
        let transfer_bill_no = read_text(document, at, "transfer_bill_no")?;
        let create_time = read_text(document, at, "create_time")?;
        let state = read_text(document, at, "state")?;
        let fail_reason = read_opt_text(document, at, "fail_reason")?;
        let package_info = read_opt_text(document, at, "package_info")?;
        Some(
            TransferBillsResponse {
                code,
                message,
                detail,
                out_bill_no,
                transfer_bill_no,
                create_time,
                state,
                fail_reason,
                package_info,
            },
        )
    }
}

impl ResponseTrait for TransferBillsResponse {
    fn from_json(body: &str) -> (res: Result<Self, PayError>) {
        read_document(body)
    }
}

/// The shape of the sealed resource of a notification.
impl JsonShape for WechatPayNotifySource {
    open spec fn readable(document: Seq<char>, at: Seq<char>) -> bool {
        &&& json_item(document, at) is Object
        &&& text_in(json_item(document, below(at, "algorithm"@))) is Some
        &&& text_in(json_item(document, below(at, "ciphertext"@))) is Some
        &&& is_opt_text(json_item(document, below(at, "associated_data"@)))
        &&& text_in(json_item(document, below(at, "original_type"@))) is Some
        &&& text_in(json_item(document, below(at, "nonce"@))) is Some
    }

    open spec fn read_from(&self, document: Seq<char>, at: Seq<char>) -> bool {
        &&& is_text(json_item(document, below(at, "algorithm"@)), self.algorithm)
        &&& is_text(json_item(document, below(at, "ciphertext"@)), self.ciphertext)
        &&& is_opt_text_of(
            json_item(document, below(at, "associated_data"@)),
            self.associated_data,
        )
        &&& is_text(json_item(document, below(at, "original_type"@)), self.original_type)
        &&& is_text(json_item(document, below(at, "nonce"@)), self.nonce)
    }

    fn read(document: &str, at: &str) -> (res: Option<Self>) {
        match json_at(document, at) {
            JsonItem::Object => {},
            _ => {
                return None;
            },
        }
        let algorithm = read_text(document, at, "algorithm")?;
        let ciphertext = read_text(document, at, "ciphertext")?;
        let associated_data = read_opt_text(document, at, "associated_data")?;
        let original_type = read_text(document, at, "original_type")?;
        let nonce = read_text(document, at, "nonce")?;
        Some(
            WechatPayNotifySource {
                algorithm,
                ciphertext,
                associated_data,
                original_type,
                nonce,
            },
        )
    }
}

/// The shape of a notification.
impl JsonShape for WechatPayNotify {
    open spec fn readable(document: Seq<char>, at: Seq<char>) -> bool {
        &&& json_item(document, at) is Object
        &&& text_in(json_item(document, below(at, "id"@))) is Some
        &&& text_in(json_item(document, below(at, "create_time"@))) is Some
        &&& text_in(json_item(document, below(at, "event_type"@))) is Some
        &&& text_in(json_item(document, below(at, "resource_type"@))) is Some
        &&& WechatPayNotifySource::readable(document, below(at, "resource"@))
        &&& text_in(json_item(document, below(at, "summary"@))) is Some
    }

    open spec fn read_from(&self, document: Seq<char>, at: Seq<char>) -> bool {
        &&& is_text(json_item(document, below(at, "id"@)), self.id)
        &&& is_text(json_item(document, below(at, "create_time"@)), self.create_time)
        &&& is_text(json_item(document, below(at, "event_type"@)), self.event_type)
        &&& is_text(json_item(document, below(at, "resource_type"@)), self.resource_type)
        &&& self.resource.read_from(document, below(at, "resource"@))
        &&& is_text(json_item(document, below(at, "summary"@)), self.summary)
    }

    fn read(document: &str, at: &str) -> (res: Option<Self>) {
        match json_at(document, at) {
            JsonItem::Object => {},
            _ => {
                return None;
            },
        }
        let id = read_text(document, at, "id")?;
        let create_time = read_text(document, at, "create_time")?;
        let event_type = read_text(document, at, "event_type")?;
        let resource_type = read_text(document, at, "resource_type")?;
        let resource = read_shape(document, at, "resource")?;
        let summary = read_text(document, at, "summary")?;
        Some(WechatPayNotify { id, create_time, event_type, resource_type, resource, summary })
    }
}

impl WechatPayNotify {
    /// Reads a notification from a JSON document. Fails with
    /// `PayError::Serialization` exactly where the document is not of its
    /// shape.
    pub fn from_json(body: &str) -> (res: Result<Self, PayError>)
        ensures
            match res {
                Ok(value) => Self::readable(body@, Seq::empty()) && value.read_from(
                    body@,
                    Seq::empty(),
                ),
                Err(e) => e == PayError::Serialization && !Self::readable(body@, Seq::empty()),
            },
    {
        read_document(body)
    }
}

/// The shape of a payer.
impl JsonShape for PayerInfo {
    open spec fn readable(document: Seq<char>, at: Seq<char>) -> bool {
        &&& json_item(document, at) is Object
        &&& text_in(json_item(document, below(at, "openid"@))) is Some
    }

    open spec fn read_from(&self, document: Seq<char>, at: Seq<char>) -> bool {
        &&& is_text(json_item(document, below(at, "openid"@)), self.openid)
    }

    fn read(document: &str, at: &str) -> (res: Option<Self>) {
        match json_at(document, at) {
            JsonItem::Object => {},
            _ => {
                return None;
            },
        }
        let openid = read_text(document, at, "openid")?;
        Some(PayerInfo { openid })
    }
}

/// The shape of an amount.
impl JsonShape for AmountInfo {
    open spec fn readable(document: Seq<char>, at: Seq<char>) -> bool {
        &&& json_item(document, at) is Object
        &&& i32_in(json_item(document, below(at, "total"@))) is Some
    }

    open spec fn read_from(&self, document: Seq<char>, at: Seq<char>) -> bool {
        &&& i32_in(json_item(document, below(at, "total"@))) == Some(self.total)
    }

    fn read(document: &str, at: &str) -> (res: Option<Self>) {
        match json_at(document, at) {
            JsonItem::Object => {},
            _ => {
                return None;
            },
        }
        let total = read_i32(document, at, "total")?;
        Some(AmountInfo { total })
    }
}

/// The shape of the payment that a notification reports.
impl JsonShape for WechatPayDecodeData {
    open spec fn readable(document: Seq<char>, at: Seq<char>) -> bool {
        &&& json_item(document, at) is Object
        &&& text_in(json_item(document, below(at, "mchid"@))) is Some
        &&& text_in(json_item(document, below(at, "appid"@))) is Some
        &&& text_in(json_item(document, below(at, "out_trade_no"@))) is Some
        &&& text_in(json_item(document, below(at, "transaction_id"@))) is Some
        &&& text_in(json_item(document, below(at, "trade_type"@))) is Some
        &&& text_in(json_item(document, below(at, "trade_state"@))) is Some
        &&& text_in(json_item(document, below(at, "trade_state_desc"@))) is Some
        &&& text_in(json_item(document, below(at, "bank_type"@))) is Some
        &&& text_in(json_item(document, below(at, "attach"@))) is Some
        &&& text_in(json_item(document, below(at, "success_time"@))) is Some
        &&& PayerInfo::readable(document, below(at, "payer"@))
        &&& AmountInfo::readable(document, below(at, "amount"@))
    }

    open spec fn read_from(&self, document: Seq<char>, at: Seq<char>) -> bool {
        &&& is_text(json_item(document, below(at, "mchid"@)), self.mchid)
        &&& is_text(json_item(document, below(at, "appid"@)), self.appid)
        &&& is_text(json_item(document, below(at, "out_trade_no"@)), self.out_trade_no)
        &&& is_text(json_item(document, below(at, "transaction_id"@)), self.transaction_id)
        &&& is_text(json_item(document, below(at, "trade_type"@)), self.trade_type)
        &&& is_text(json_item(document, below(at, "trade_state"@)), self.trade_state)
        &&& is_text(json_item(document, below(at, "trade_state_desc"@)), self.trade_state_desc)
        &&& is_text(json_item(document, below(at, "bank_type"@)), self.bank_type)
        &&& is_text(json_item(document, below(at, "attach"@)), self.attach)
        &&& is_text(json_item(document, below(at, "success_time"@)), self.success_time)
        &&& self.payer.read_from(document, below(at, "payer"@))
        &&& self.amount.read_from(document, below(at, "amount"@))
    }

    fn read(document: &str, at: &str) -> (res: Option<Self>) {
        match json_at(document, at) {
            JsonItem::Object => {},
            _ => {
                return None;
            },
        }
        let mchid = read_text(document, at, "mchid")?;
        let appid = read_text(document, at, "appid")?;
        let out_trade_no = read_text(document, at, "out_trade_no")?;
        let transaction_id = read_text(document, at, "transaction_id")?;
        let trade_type = read_text(document, at, "trade_type")?;
        let trade_state = read_text(document, at, "trade_state")?;
        let trade_state_desc = read_text(document, at, "trade_state_desc")?;
        let bank_type = read_text(document, at, "bank_type")?;
        let attach = read_text(document, at, "attach")?;
        let success_time = read_text(document, at, "success_time")?;
        let payer = read_shape(document, at, "payer")?;
        let amount = read_shape(document, at, "amount")?;
        Some(
            WechatPayDecodeData {
                mchid,
                appid,
                out_trade_no,
                transaction_id,
                trade_type,
                trade_state,
                trade_state_desc,
                bank_type,
                attach,
                success_time,
                payer,
                amount,
            },
        )
    }
}

impl WechatPayDecodeData {
    /// Reads the payment that a notification reports from a JSON document. Fails with
    /// `PayError::Serialization` exactly where the document is not of its
    /// shape.
    pub fn from_json(body: &str) -> (res: Result<Self, PayError>)
        ensures
            match res {
                Ok(value) => Self::readable(body@, Seq::empty()) && value.read_from(
                    body@,
                    Seq::empty(),
                ),
                Err(e) => e == PayError::Serialization && !Self::readable(body@, Seq::empty()),
            },
    {
        read_document(body)
    }
}

} // verus!
