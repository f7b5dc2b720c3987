use crate::cert::{lookup_step, CertificateCache, LookupView, PlatformCertificateView};
use crate::decrypt::{decrypt_text, opened_text};
use crate::error::PayError;
use crate::model::{WechatPayDecodeData, WechatPayNotify, WechatPayNotifySource};
use crate::parse::{below, json_item, text_in, JsonItemView, JsonShape};
use crate::pay::WechatPay;
use crate::sign::{notification_verifies, verify_signature};
use vstd::prelude::*;
use vstd::string::*;

verus! {

/// What to do with an inbound notification.
#[derive(Clone, Copy, Debug, PartialEq, Eq, Structural)]
pub enum Verdict {
    /// The signature is the gateway's: the resource may be opened.
    Accept,
    /// The signing certificate is not held: fetch the list, then ask again.
    Refresh,
    /// The notification is not to be trusted; nothing of it is processed.
    Reject(PayError),
}

/// The verdict on a notification, given what the cache holds and whether the
/// certificate list was already fetched for this notification.
///
/// The signature is checked against the certificate whose serial number the
/// notification declares, and against no other. A certificate that cannot
/// be found, like a signature that does not match, ends in
/// `PayError::Verification`.
pub open spec fn notification_verdict(
    held: Map<Seq<char>, PlatformCertificateView>,
    refreshed: bool,
    serial_no: Seq<char>,
    timestamp: Seq<char>,
    nonce: Seq<char>,
    signature: Seq<char>,
    body: Seq<char>,
) -> Verdict {
    match lookup_step(held, serial_no, refreshed) {
        Ok(LookupView::Found(cert)) => if notification_verifies(
            cert.public_key,
            timestamp,
            nonce,
            signature,
            body,
        ) {
            Verdict::Accept
        } else {
            Verdict::Reject(PayError::Verification)
        },
        Ok(LookupView::Refresh) => Verdict::Refresh,
        Err(_) => Verdict::Reject(PayError::Verification),
    }
}

/// What became of an inbound notification.
#[derive(Debug, Clone)]
pub enum Received {
    /// The signing certificate is not held: fetch the list, then hand the
    /// notification in again.
    Refresh,
    /// The notification was turned down; no event comes of it.
    Rejected(PayError),
    /// The notification is the gateway's and reports this payment.
    Event(WechatPayDecodeData),
}

/// The JSON text of the event that the resource of a notification opens to
/// under `key`, read from the notification's body.
pub open spec fn event_text(key: Seq<char>, body: Seq<char>) -> Result<Seq<char>, PayError> {
    let resource = below(Seq::empty(), "resource"@);
    if !WechatPayNotify::readable(body, Seq::empty()) {
        Err(PayError::Serialization)
    } else {
        opened_text(
            key,
            text_in(json_item(body, below(resource, "ciphertext"@)))->0,
            text_in(json_item(body, below(resource, "nonce"@)))->0,
            match json_item(body, below(resource, "associated_data"@)) {
                JsonItemView::Text(text) => text,
                _ => Seq::empty(),
            },
        )
    }
}

/// Whether `outcome` is what the opened text of an event leads to: the
/// event it spells, or `PayError::Serialization` where it spells none.
pub open spec fn reports(outcome: Received, plain: Seq<char>) -> bool {
    if WechatPayDecodeData::readable(plain, Seq::empty()) {
        outcome matches Received::Event(event) && event.read_from(plain, Seq::empty())
    } else {
        outcome matches Received::Rejected(e) && e == PayError::Serialization
    }
}

/// Whether `outcome` is what a notification leads to, given what the cache
/// holds and whether the certificate list was already fetched for it.
///
/// Only a notification whose signature was accepted is read and opened; a
/// resource that does not open yields no event, whole or partial.
pub open spec fn is_outcome(
    outcome: Received,
    key: Seq<char>,
    held: Map<Seq<char>, PlatformCertificateView>,
    refreshed: bool,
    serial_no: Seq<char>,
    timestamp: Seq<char>,
    nonce: Seq<char>,
    signature: Seq<char>,
    body: Seq<char>,
) -> bool {
    match notification_verdict(held, refreshed, serial_no, timestamp, nonce, signature, body) {
        Verdict::Refresh => outcome is Refresh,
        Verdict::Reject(error) => outcome matches Received::Rejected(e) && e == error,
        Verdict::Accept => match event_text(key, body) {
            Ok(plain) => reports(outcome, plain),
            Err(error) => outcome matches Received::Rejected(e) && e == error,
        },
    }
}

/// The associated data of a sealed resource; none counts as empty.
pub open spec fn associated_text(resource: WechatPayNotifySource) -> Seq<char> {
    match resource.associated_data {
        Some(text) => text@,
        None => Seq::empty(),
    }
}

/// Judges an inbound notification by its four headers and its raw body.
pub fn verify_notification(
    cache: &CertificateCache,
    refreshed: bool,
    serial_no: &str,
    timestamp: &str,
    nonce: &str,
    signature: &str,
    body: &str,
) -> (res: Verdict)
    ensures
        res == notification_verdict(
            cache@,
            refreshed,
            serial_no@,
            timestamp@,
            nonce@,
            signature@,
            body@,
        ),
{
    match cache.get(serial_no) {
        Some(cert) => {
            match verify_signature(cert.public_key.as_str(), timestamp, nonce, signature, body) {
                Ok(()) => Verdict::Accept,
                Err(e) => Verdict::Reject(e),
            }
        },
        None => if refreshed {
            Verdict::Reject(PayError::Verification)
        } else {
            Verdict::Refresh
        },
    }
}

/// Opens the sealed resource of a notification that was accepted, and gives
/// the JSON text of the event it reports.
pub fn decrypt_resource(key: &str, resource: &WechatPayNotifySource) -> (res: Result<
    String,
    PayError,
>)
    ensures
        match opened_text(key@, resource.ciphertext@, resource.nonce@, associated_text(*resource)) {
            Ok(text) => res matches Ok(plain) && plain@ == text,
            Err(error) => res matches Err(e) && e == error,
        },
{
    proof {
        reveal_strlit("");
    }
    let associated_data = match &resource.associated_data {
        Some(text) => text.as_str(),
        None => "",
    };
    assert(associated_data@ =~= associated_text(*resource));
    decrypt_text(key, resource.ciphertext.as_str(), resource.nonce.as_str(), associated_data)
}

/// A notification asks for a fetch of the certificate list only while none
/// was made for it: once `refreshed` is set, the verdict is to accept or to
/// reject.
pub proof fn lemma_one_refresh_per_notification(
    held: Map<Seq<char>, PlatformCertificateView>,
    serial_no: Seq<char>,
    timestamp: Seq<char>,
    nonce: Seq<char>,
    signature: Seq<char>,
    body: Seq<char>,
)
    ensures
        notification_verdict(held, true, serial_no, timestamp, nonce, signature, body)
            != Verdict::Refresh,
        notification_verdict(held, false, serial_no, timestamp, nonce, signature, body)
            == Verdict::Refresh <==> !held.contains_key(serial_no),
{
}

impl WechatPay {
    /// Takes an inbound notification through its whole course: the signature
    /// is checked against the certificate that the notification names; only
    /// then is the body read, the resource opened with the merchant's
    /// notification key, and the event read from what it opens to.
    pub fn receive_notification(
        &self,
        cache: &CertificateCache,
        refreshed: bool,
        serial_no: &str,
        timestamp: &str,
        nonce: &str,
        signature: &str,
        body: &str,
    ) -> (res: Received)
        ensures
            is_outcome(
                res,
                self@.v3_key,
                cache@,
                refreshed,
                serial_no@,
                timestamp@,
                nonce@,
                signature@,
                body@,
            ),
    {
        match verify_notification(cache, refreshed, serial_no, timestamp, nonce, signature, body) {
            Verdict::Refresh => Received::Refresh,
            Verdict::Reject(e) => Received::Rejected(e),
            Verdict::Accept => match WechatPayNotify::from_json(body) {
                Ok(envelope) => match self.decrypt_resource(&envelope.resource) {
                    Ok(plain) => match WechatPayDecodeData::from_json(plain.as_str()) {
                        Ok(event) => Received::Event(event),
                        Err(e) => Received::Rejected(e),
                    },
                    Err(e) => Received::Rejected(e),
                },
                Err(e) => Received::Rejected(e),
            },
        }
    }

    /// Opens a sealed resource with the merchant's notification key; see
    /// [`decrypt_resource`].
    pub fn decrypt_resource(&self, resource: &WechatPayNotifySource) -> (res: Result<
        String,
        PayError,
    >)
        ensures
            match opened_text(
                self@.v3_key,
                resource.ciphertext@,
                resource.nonce@,
                associated_text(*resource),
            ) {
                Ok(text) => res matches Ok(plain) && plain@ == text,
                Err(error) => res matches Err(e) && e == error,
            },
    {
        decrypt_resource(self.v3_key(), resource)
    }
}

} // verus!
