use crate::error::PayError;
use crate::model::ParamsTrait;
use crate::request::{
    authorization_text, build_authorization, build_invocation_signing_text,
    build_request_signing_text, invocation_signing_text, request_signing_text, Header, HttpMethod,
    SignedRequest,
};
use crate::response::{AppResponse, JsapiResponse, MicroResponse, SignData};
use crate::sign::{rsa_sign, signature_text};
use crate::stamp::Stamp;
use vstd::prelude::*;
use vstd::string::*;

verus! {

/// The merchant's identity and secrets. Built once, never changed.
pub struct WechatPay {
    appid: String,
    mch_id: String,
    private_key: String,
    serial_no: String,
    v3_key: String,
    notify_url: String,
    base_url: String,
}

/// What a `WechatPay` holds, as plain text.
pub struct Credentials {
    pub appid: Seq<char>,
    pub mch_id: Seq<char>,
    pub private_key: Seq<char>,
    pub serial_no: Seq<char>,
    pub v3_key: Seq<char>,
    pub notify_url: Seq<char>,
    pub base_url: Seq<char>,
}

impl View for WechatPay {
    type V = Credentials;

    closed spec fn view(&self) -> Credentials {
        Credentials {
            appid: self.appid@,
            mch_id: self.mch_id@,
            private_key: self.private_key@,
            serial_no: self.serial_no@,
            v3_key: self.v3_key@,
            notify_url: self.notify_url@,
            base_url: self.base_url@,
        }
    }
}

/// The calls the gateway offers to this client.
#[derive(Clone, Copy, Debug, PartialEq, Eq, Structural)]
pub enum Endpoint {
    H5,
    App,
    Jsapi,
    Micro,
    Native,
    TransferBills,
    Certificates,
}

impl Endpoint {
    /// The path of the call, below the gateway's base address.
    pub open spec fn spec_path(self) -> Seq<char> {
        match self {
            Endpoint::H5 => "/v3/pay/transactions/h5"@,
            Endpoint::App => "/v3/pay/transactions/app"@,
            Endpoint::Jsapi => "/v3/pay/transactions/jsapi"@,
            Endpoint::Micro => "/v3/pay/transactions/jsapi"@,
            Endpoint::Native => "/v3/pay/transactions/native"@,
            Endpoint::TransferBills => "/v3/fund-app/mch-transfer/transfer-bills"@,
            Endpoint::Certificates => "/v3/certificates"@,
        }
    }

    /// The method of the call: the certificate list is fetched, everything
    /// else is posted.
    pub open spec fn spec_method(self) -> HttpMethod {
        match self {
            Endpoint::Certificates => HttpMethod::GET,
            _ => HttpMethod::POST,
        }
    }

    /// What stands before the prepay token in the package string of the
    /// invocation signature; `None` for a call whose response needs none.
    pub open spec fn spec_package_prefix(self) -> Option<Seq<char>> {
        match self {
            Endpoint::App => Some(Seq::empty()),
            Endpoint::Jsapi => Some("prepay_id="@),
            Endpoint::Micro => Some("prepay_id="@),
            _ => None,
        }
    }

    pub fn path(&self) -> (res: &'static str)
        ensures
            res@ == self.spec_path(),
    {
        match self {
            Endpoint::H5 => "/v3/pay/transactions/h5",
            Endpoint::App => "/v3/pay/transactions/app",
            Endpoint::Jsapi => "/v3/pay/transactions/jsapi",
            Endpoint::Micro => "/v3/pay/transactions/jsapi",
            Endpoint::Native => "/v3/pay/transactions/native",
            Endpoint::TransferBills => "/v3/fund-app/mch-transfer/transfer-bills",
            Endpoint::Certificates => "/v3/certificates",
        }
    }

    pub fn method(&self) -> (res: HttpMethod)
        ensures
            res == self.spec_method(),
    {
        match self {
            Endpoint::Certificates => HttpMethod::GET,
            _ => HttpMethod::POST,
        }
    }

    pub fn package_prefix(&self) -> (res: Option<&'static str>)
        ensures
            match self.spec_package_prefix() {
                Some(prefix) => res matches Some(text) && text@ == prefix,
                None => res is None,
            },
    {
        proof {
            reveal_strlit("");
        }
        match self {
            Endpoint::App => Some(""),
            Endpoint::Jsapi => Some("prepay_id="),
            Endpoint::Micro => Some("prepay_id="),
            _ => None,
        }
    }
}

/// Whether `headers` is the header set of a call that carries
/// `authorization`: the authorization first, then the two that announce
/// JSON and the one that names the client.
pub open spec fn is_header_set(headers: Seq<Header>, authorization: Seq<char>) -> bool {
    &&& headers.len() == 4
    &&& headers[0].name@ == "Authorization"@
    &&& headers[0].value@ == authorization
    &&& headers[1].name@ == "Accept"@
    &&& headers[1].value@ == "application/json"@
    &&& headers[2].name@ == "Content-Type"@
    &&& headers[2].value@ == "application/json"@
    &&& headers[3].name@ == "User-Agent"@
    &&& headers[3].value@ == "wechat_pay"@
}

/// The signature, in base64, that the merchant key gives to an outbound
/// call; `None` where the key cannot sign.
pub open spec fn request_signature(
    credentials: Credentials,
    method: HttpMethod,
    path: Seq<char>,
    body: Seq<char>,
    timestamp: Seq<char>,
    nonce: Seq<char>,
) -> Option<Seq<char>> {
    signature_text(
        credentials.private_key,
        request_signing_text(method.text(), path, timestamp, nonce, body),
    )
}

/// The value of the `Authorization` header of an outbound call that the
/// merchant key has given `signature`.
pub open spec fn authorization_of(
    credentials: Credentials,
    timestamp: Seq<char>,
    nonce: Seq<char>,
    signature: Seq<char>,
) -> Seq<char> {
    authorization_text(credentials.mch_id, nonce, timestamp, credentials.serial_no, signature)
}

/// Whether `request` is the outbound call with this method, path and body,
/// signed with `signature`: the address is the base address followed by the
/// path, the body is handed on as it is.
pub open spec fn is_signed_request(
    request: SignedRequest,
    credentials: Credentials,
    method: HttpMethod,
    path: Seq<char>,
    body: Seq<char>,
    timestamp: Seq<char>,
    nonce: Seq<char>,
    signature: Seq<char>,
) -> bool {
    &&& request.method == method
    &&& request.url@ == credentials.base_url + path
    &&& request.body@ == body
    &&& is_header_set(request.headers@, authorization_of(credentials, timestamp, nonce, signature))
}

/// The signature, in base64, that the merchant key gives to the invocation
/// of a client SDK with this package string; `None` where the key cannot
/// sign.
pub open spec fn invocation_signature(
    credentials: Credentials,
    package: Seq<char>,
    timestamp: Seq<char>,
    nonce: Seq<char>,
) -> Option<Seq<char>> {
    signature_text(
        credentials.private_key,
        invocation_signing_text(credentials.appid, timestamp, nonce, package),
    )
}

/// Whether `data` holds exactly the signed fields of an invocation and
/// `signature` over them.
pub open spec fn is_sign_data(
    data: SignData,
    app_id: Seq<char>,
    timestamp: Seq<char>,
    nonce: Seq<char>,
    package: Seq<char>,
    signature: Seq<char>,
) -> bool {
    &&& data.app_id@ == app_id
    &&& data.sign_type@ == "RSA"@
    &&& data.package@ == package
    &&& data.nonce_str@ == nonce
    &&& data.timestamp@ == timestamp
    &&& data.pay_sign@ == signature
}

/// Whether `sign_data` is there and is what [`is_sign_data`] describes.
pub open spec fn holds_sign_data(
    sign_data: Option<SignData>,
    app_id: Seq<char>,
    timestamp: Seq<char>,
    nonce: Seq<char>,
    package: Seq<char>,
    signature: Seq<char>,
) -> bool {
    sign_data matches Some(data) && is_sign_data(
        data,
        app_id,
        timestamp,
        nonce,
        package,
        signature,
    )
}

/// How the response of a call is completed once it has arrived.
pub enum Completion {
    /// Nothing is added.
    Nothing,
    /// The invocation signature is added: the package string that was
    /// signed, and the signature.
    Signed(Seq<char>, Seq<char>),
    /// The merchant key could not sign.
    Failed,
}

/// How the response of a call to `endpoint` is completed, given the prepay
/// token that it holds.
pub open spec fn completion(
    credentials: Credentials,
    endpoint: Endpoint,
    prepay_id: Option<String>,
    timestamp: Seq<char>,
    nonce: Seq<char>,
) -> Completion {
    match (endpoint.spec_package_prefix(), prepay_id) {
        (Some(prefix), Some(id)) => match invocation_signature(
            credentials,
            prefix + id@,
            timestamp,
            nonce,
        ) {
            Some(signature) => Completion::Signed(prefix + id@, signature),
            None => Completion::Failed,
        },
        _ => Completion::Nothing,
    }
}

impl WechatPay {
    /// Credentials for the production gateway.
    pub fn new(
        appid: &str,
        mch_id: &str,
        private_key: &str,
        serial_no: &str,
        v3_key: &str,
        notify_url: &str,
    ) -> (res: Self)
        ensures
            res@ == (Credentials {
                appid: appid@,
                mch_id: mch_id@,
                private_key: private_key@,
                serial_no: serial_no@,
                v3_key: v3_key@,
                notify_url: notify_url@,
                base_url: "https://api.mch.weixin.qq.com"@,
            }),
    {
        WechatPay {
            appid: appid.to_owned(),
            mch_id: mch_id.to_owned(),
            private_key: private_key.to_owned(),
            serial_no: serial_no.to_owned(),
            v3_key: v3_key.to_owned(),
            notify_url: notify_url.to_owned(),
            base_url: "https://api.mch.weixin.qq.com".to_owned(),
        }
    }

    /// The same credentials, for a gateway at another address.
    pub fn with_base_url(self, base_url: &str) -> (res: Self)
        ensures
            res@ == (Credentials { base_url: base_url@, ..self@ }),
    {
        WechatPay {
            appid: self.appid,
            mch_id: self.mch_id,
            private_key: self.private_key,
            serial_no: self.serial_no,
            v3_key: self.v3_key,
            notify_url: self.notify_url,
            base_url: base_url.to_owned(),
        }
    }

    pub fn appid(&self) -> (res: &str)
        ensures
            res@ == self@.appid,
    {
        self.appid.as_str()
    }

    pub fn mch_id(&self) -> (res: &str)
        ensures
            res@ == self@.mch_id,
    {
        self.mch_id.as_str()
    }

    pub fn serial_no(&self) -> (res: &str)
        ensures
            res@ == self@.serial_no,
    {
        self.serial_no.as_str()
    }

    pub fn v3_key(&self) -> (res: &str)
        ensures
            res@ == self@.v3_key,
    {
        self.v3_key.as_str()
    }

    pub fn notify_url(&self) -> (res: &str)
        ensures
            res@ == self@.notify_url,
    {
        self.notify_url.as_str()
    }

    pub fn base_url(&self) -> (res: &str)
        ensures
            res@ == self@.base_url,
    {
        self.base_url.as_str()
    }

    /// Signs `content` with the merchant key; see [`rsa_sign`].
    pub fn rsa_sign(&self, content: &str) -> (res: Result<String, PayError>)
        ensures
            match signature_text(self@.private_key, content@) {
                Some(text) => res matches Ok(signed) && signed@ == text,
                None => res matches Err(e) && e == PayError::Signing,
            },
    {
        rsa_sign(self.private_key.as_str(), content)
    }

    /// The header set of one outbound call: its `Authorization` header, made
    /// from a signature over the call's canonical text, the two headers that
    /// announce JSON, and the one that names the client.
    pub fn build_header(&self, method: HttpMethod, path: &str, body: &str, stamp: &Stamp) -> (res:
        Result<Vec<Header>, PayError>)
        ensures
            match request_signature(
                self@,
                method,
                path@,
                body@,
                stamp.timestamp@,
                stamp.nonce@,
            ) {
                Some(signature) => res matches Ok(headers) && is_header_set(
                    headers@,
                    authorization_of(self@, stamp.timestamp@, stamp.nonce@, signature),
                ),
                None => res matches Err(e) && e == PayError::Signing,
            },
    {
        let message = build_request_signing_text(
            method,
            path,
            stamp.timestamp.as_str(),
            stamp.nonce.as_str(),
            body,
        );
        match self.rsa_sign(message.as_str()) {
            Ok(signature) => {
                let authorization = build_authorization(
                    self.mch_id.as_str(),
                    stamp.nonce.as_str(),
                    stamp.timestamp.as_str(),
                    self.serial_no.as_str(),
                    signature.as_str(),
                );
                let mut headers: Vec<Header> = Vec::new();
                headers.push(Header { name: "Authorization".to_owned(), value: authorization });
                headers.push(
                    Header { name: "Accept".to_owned(), value: "application/json".to_owned() },
                );
                headers.push(
                    Header {
                        name: "Content-Type".to_owned(),
                        value: "application/json".to_owned(),
                    },
                );
                headers.push(
                    Header { name: "User-Agent".to_owned(), value: "wechat_pay".to_owned() },
                );
                Ok(headers)
            },
            Err(e) => Err(e),
        }
    }

    /// One outbound call, signed and ready to be sent.
    ///
    /// Fails with `PayError::Signing`, and only with it, exactly where the
    /// merchant key cannot sign.
    pub fn build_request(&self, method: HttpMethod, path: &str, body: &str, stamp: &Stamp) -> (res:
        Result<SignedRequest, PayError>)
        ensures
            match request_signature(
                self@,
                method,
                path@,
                body@,
                stamp.timestamp@,
                stamp.nonce@,
            ) {
                Some(signature) => res matches Ok(request) && is_signed_request(
                    request,
                    self@,
                    method,
                    path@,
                    body@,
                    stamp.timestamp@,
                    stamp.nonce@,
                    signature,
                ),
                None => res matches Err(e) && e == PayError::Signing,
            },
    {
        match self.build_header(method, path, body, stamp) {
            Ok(headers) => {
                let mut url = self.base_url.clone();
                url.append(path);
                Ok(SignedRequest { method, url, headers, body: body.to_owned() })
            },
            Err(e) => Err(e),
        }
    }

    /// One outbound call with a JSON body, signed: the body is the JSON text
    /// of `json`, and it is this text that the signature covers.
    pub fn prepare_pay<P: ParamsTrait>(
        &self,
        method: HttpMethod,
        url: &str,
        json: &P,
        stamp: &Stamp,
    ) -> (res: Result<SignedRequest, PayError>)
        ensures
            match request_signature(
                self@,
                method,
                url@,
                json.json(),
                stamp.timestamp@,
                stamp.nonce@,
            ) {
                Some(signature) => res matches Ok(request) && is_signed_request(
                    request,
                    self@,
                    method,
                    url@,
                    json.json(),
                    stamp.timestamp@,
                    stamp.nonce@,
                    signature,
                ),
                None => res matches Err(e) && e == PayError::Signing,
            },
    {
        let body = json.to_json();
        self.build_request(method, url, body.as_str(), stamp)
    }

    /// One outbound call without a body, signed.
    pub fn prepare_get(&self, url: &str, stamp: &Stamp) -> (res: Result<SignedRequest, PayError>)
        ensures
            match request_signature(
                self@,
                HttpMethod::GET,
                url@,
                Seq::empty(),
                stamp.timestamp@,
                stamp.nonce@,
            ) {
                Some(signature) => res matches Ok(request) && is_signed_request(
                    request,
                    self@,
                    HttpMethod::GET,
                    url@,
                    Seq::empty(),
                    stamp.timestamp@,
                    stamp.nonce@,
                    signature,
                ),
                None => res matches Err(e) && e == PayError::Signing,
            },
    {
        proof {
            reveal_strlit("");
        }
        assert(""@ =~= Seq::<char>::empty());
        self.build_request(HttpMethod::GET, url, "", stamp)
    }

    /// The invocation signature for a prepay token: a second, independent
    /// use of the merchant key, over the client SDK's own canonical text.
    /// The package string is `prefix` followed by the token.
    pub fn mut_sign_data(&self, prefix: &str, prepay_id: &str, stamp: &Stamp) -> (res: Result<
        SignData,
        PayError,
    >)
        ensures
            match invocation_signature(
                self@,
                prefix@ + prepay_id@,
                stamp.timestamp@,
                stamp.nonce@,
            ) {
                Some(signature) => res matches Ok(data) && is_sign_data(
                    data,
                    self@.appid,
                    stamp.timestamp@,
                    stamp.nonce@,
                    prefix@ + prepay_id@,
                    signature,
                ),
                None => res matches Err(e) && e == PayError::Signing,
            },
    {
        let mut package = prefix.to_owned();
        package.append(prepay_id);
        let message = build_invocation_signing_text(
            self.appid.as_str(),
            stamp.timestamp.as_str(),
            stamp.nonce.as_str(),
            package.as_str(),
        );
        match self.rsa_sign(message.as_str()) {
            Ok(pay_sign) => Ok(
                SignData {
                    app_id: self.appid.clone(),
                    sign_type: "RSA".to_owned(),
                    package,
                    nonce_str: stamp.nonce.clone(),
                    timestamp: stamp.timestamp.clone(),
                    pay_sign,
                },
            ),
            Err(e) => Err(e),
        }
    }

    /// What a response with a prepay token is completed with: nothing where
    /// the call's responses carry no invocation signature or the gateway
    /// returned no token, else the invocation signature for the token.
    pub fn sign_prepay(
        &self,
        endpoint: Endpoint,
        prepay_id: &Option<String>,
        stamp: &Stamp,
    ) -> (res: Result<Option<SignData>, PayError>)
        ensures
            match completion(self@, endpoint, *prepay_id, stamp.timestamp@, stamp.nonce@) {
                Completion::Nothing => res matches Ok(None),
                Completion::Signed(package, signature) => res matches Ok(Some(data))
                    && is_sign_data(
                    data,
                    self@.appid,
                    stamp.timestamp@,
                    stamp.nonce@,
                    package,
                    signature,
                ),
                Completion::Failed => res matches Err(e) && e == PayError::Signing,
            },
    {
        match (endpoint.package_prefix(), prepay_id) {
            (Some(prefix), Some(id)) => {
                match self.mut_sign_data(prefix, id.as_str(), stamp) {
                    Ok(data) => Ok(Some(data)),
                    Err(e) => Err(e),
                }
            },
            _ => Ok(None),
        }
    }

    /// Completes the response of an app payment: where the gateway returned
    /// a prepay token, the response gets the invocation signature for it;
    /// everything else stays as it came.
    pub fn complete_app_pay(&self, response: AppResponse, stamp: &Stamp) -> (res: Result<
        AppResponse,
        PayError,
    >)
        ensures
            match completion(
                self@,
                Endpoint::App,
                response.prepay_id,
                stamp.timestamp@,
                stamp.nonce@,
            ) {
                Completion::Nothing => res matches Ok(done) && done == response,
                Completion::Signed(package, signature) => res matches Ok(done) && done.code
                    == response.code && done.message == response.message && done.prepay_id
                    == response.prepay_id && holds_sign_data(
                    done.sign_data,
                    self@.appid,
                    stamp.timestamp@,
                    stamp.nonce@,
                    package,
                    signature,
                ),
                Completion::Failed => res matches Err(e) && e == PayError::Signing,
            },
    {
        match self.sign_prepay(Endpoint::App, &response.prepay_id, stamp) {
            Ok(Some(data)) => {
                let mut done = response;
                done.sign_data = Some(data);
                Ok(done)
            },
            Ok(None) => Ok(response),
            Err(e) => Err(e),
        }
    }

    /// Completes the response of a JSAPI payment; see
    /// [`WechatPay::complete_app_pay`].
    pub fn complete_jsapi_pay(&self, response: JsapiResponse, stamp: &Stamp) -> (res: Result<
        JsapiResponse,
        PayError,
    >)
        ensures
            match completion(
                self@,
                Endpoint::Jsapi,
                response.prepay_id,
                stamp.timestamp@,
                stamp.nonce@,
            ) {
                Completion::Nothing => res matches Ok(done) && done == response,
                Completion::Signed(package, signature) => res matches Ok(done) && done.code
                    == response.code && done.message == response.message && done.prepay_id
                    == response.prepay_id && holds_sign_data(
                    done.sign_data,
                    self@.appid,
                    stamp.timestamp@,
                    stamp.nonce@,
                    package,
                    signature,
                ),
                Completion::Failed => res matches Err(e) && e == PayError::Signing,
            },
    {
        match self.sign_prepay(Endpoint::Jsapi, &response.prepay_id, stamp) {
            Ok(Some(data)) => {
                let mut done = response;
                done.sign_data = Some(data);
                Ok(done)
            },
            Ok(None) => Ok(response),
            Err(e) => Err(e),
        }
    }

    /// Completes the response of a mini-program payment; see
    /// [`WechatPay::complete_app_pay`].
    pub fn complete_micro_pay(&self, response: MicroResponse, stamp: &Stamp) -> (res: Result<
        MicroResponse,
        PayError,
    >)
        ensures
            match completion(
                self@,
                Endpoint::Micro,
                response.prepay_id,
                stamp.timestamp@,
                stamp.nonce@,
            ) {
                Completion::Nothing => res matches Ok(done) && done == response,
                Completion::Signed(package, signature) => res matches Ok(done) && done.code
                    == response.code && done.message == response.message && done.prepay_id
                    == response.prepay_id && holds_sign_data(
                    done.sign_data,
                    self@.appid,
                    stamp.timestamp@,
                    stamp.nonce@,
                    package,
                    signature,
                ),
                Completion::Failed => res matches Err(e) && e == PayError::Signing,
            },
    {
        match self.sign_prepay(Endpoint::Micro, &response.prepay_id, stamp) {
            Ok(Some(data)) => {
                let mut done = response;
                done.sign_data = Some(data);
                Ok(done)
            },
            Ok(None) => Ok(response),
            Err(e) => Err(e),
        }
    }
}

} // verus!
