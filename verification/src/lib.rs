//! Client-side trust layer for the WeChat Pay v3 gateway: canonical request
//! signing, platform-certificate bookkeeping, notification verification and
//! authenticated decryption of notification payloads.
//!
//! Outbound, a call is stamped ([`stamp`]), its body written ([`body`]),
//! its canonical text signed and its headers built ([`request`], [`sign`],
//! [`pay`]); the answer is read back into its type ([`reply`]) and, where
//! the call returns a prepay token, completed with the invocation signature
//! for the client SDK.
//!
//! Inbound, a notification is judged against the certificate that it names
//! ([`cert`], [`notify`]); only then is its body read, its resource opened
//! ([`decrypt`]) and the event taken from it.
//!
//! The library does no network I/O. Where a step needs the network (sending
//! a call, fetching the certificate list) it says so in its result, and the
//! caller hands the outcome back in.
//!
//! Everything here is verified, except what the outside crates compute: the
//! functions that call them are listed in [`crypto`], [`json`], [`parse`]
//! and [`stamp`], each with what is taken on trust.

pub mod body;
pub mod cert;
pub mod crypto;
pub mod decrypt;
pub mod error;
pub mod json;
pub mod model;
pub mod notify;
pub mod parse;
pub mod pay;
pub mod reply;
pub mod request;
pub mod response;
pub mod sign;
pub mod stamp;
pub mod weixin;
