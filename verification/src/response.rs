use crate::error::PayError;
use crate::parse::JsonShape;
use vstd::prelude::*;

verus! {

/// The types a gateway response can be read into: each has a JSON shape
/// of its own.
pub trait ResponseTrait: JsonShape {
    /// Reads a response body. Fails with `PayError::Serialization` exactly
    /// where the body is not JSON of the type's shape.
    fn from_json(body: &str) -> (res: Result<Self, PayError>)
        ensures
            match res {
                Ok(value) => Self::readable(body@, Seq::empty()) && value.read_from(
                    body@,
                    Seq::empty(),
                ),
                Err(e) => e == PayError::Serialization && !Self::readable(body@, Seq::empty()),
            },
    ;
}

#[derive(Debug)]
pub struct NativeResponse {
    pub code: Option<String>,
    pub message: Option<String>,
    /// Link from which the payment QR code is drawn.
    pub code_url: Option<String>,
}

/// What a client SDK needs to open the payment UI: the fields that were
/// signed and the signature over them.
#[derive(Debug)]
pub struct SignData {
    pub app_id: String,
    pub sign_type: String,
    pub package: String,
    pub nonce_str: String,
    pub timestamp: String,
    pub pay_sign: String,
}

#[derive(Debug)]
pub struct JsapiResponse {
    pub code: Option<String>,
    pub message: Option<String>,
    /// Prepay token, valid for two hours.
    pub prepay_id: Option<String>,
    pub sign_data: Option<SignData>,
}

#[derive(Debug)]
pub struct AppResponse {
    pub code: Option<String>,
    pub message: Option<String>,
    /// Prepay token, valid for two hours.
    pub prepay_id: Option<String>,
    pub sign_data: Option<SignData>,
}

#[derive(Debug)]
pub struct MicroResponse {
    pub code: Option<String>,
    pub message: Option<String>,
    /// Prepay token, valid for two hours.
    pub prepay_id: Option<String>,
    pub sign_data: Option<SignData>,
}

#[derive(Debug)]
pub struct H5Response {
    pub code: Option<String>,
    pub message: Option<String>,
    /// Intermediate page that opens the WeChat client; valid for five minutes.
    pub h5_url: Option<String>,
}

/// A platform certificate as the gateway sends it: sealed with the
/// notification key.
#[derive(Debug, Clone)]
pub struct EncryptCertificate {
    pub algorithm: String,
    pub nonce: String,
    pub associated_data: String,
    pub ciphertext: String,
}

#[derive(Debug, Clone)]
pub struct Certificate {
    pub serial_no: String,
    pub effective_time: String,
    pub expire_time: String,
    pub encrypt_certificate: EncryptCertificate,
}

#[derive(Debug)]
pub struct CertificateResponse {
    pub data: Option<Vec<Certificate>>,
}

#[derive(Debug)]
pub struct WechatPayErrorDetail {
    /// Where the offending parameter sits.
    pub field: Option<String>,
    /// The offending value, as the JSON text it was sent in.
    pub value: Option<String>,
    /// Why it was refused.
    pub issue: Option<String>,
    /// Where the error arose.
    pub location: Option<String>,
}

#[derive(Debug)]
pub struct TransferBillsResponse {
    pub code: Option<String>,
    pub message: Option<String>,
    pub detail: Option<WechatPayErrorDetail>,
    /// The merchant's own number of the transfer.
    pub out_bill_no: String,
    /// The gateway's number of the transfer.
    pub transfer_bill_no: String,
    /// When the bill was accepted, in RFC 3339 form.
    pub create_time: String,
    pub state: String,
    pub fail_reason: Option<String>,
    /// Package string with which the payee confirms receipt.
    pub package_info: Option<String>,
}

} // verus!
