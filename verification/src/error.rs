use vstd::prelude::*;

verus! {

/// Why an operation of this library failed.
///
/// Cryptographic failures are never folded into one another: a caller can
/// always tell "try again" (`Transport`) from "do not trust this input"
/// (`Verification`, `Decryption`, `UnknownCertificate`).
#[derive(Clone, Copy, Debug, PartialEq, Eq, Structural)]
pub enum PayError {
    /// The network call itself failed.
    Transport,
    /// The merchant key is malformed or the signing primitive failed.
    Signing,
    /// A signature did not match the message it came with.
    Verification,
    /// Authenticated decryption failed; no plaintext was produced.
    Decryption,
    /// A body is not the text or JSON it was expected to be.
    Serialization,
    /// The certificate list could not be fetched or decrypted.
    CertificateFetch,
    /// No platform certificate carries the requested serial number.
    UnknownCertificate,
    /// The payment page holds no `weixin://` link.
    WeixinNotFound,
}

} // verus!
