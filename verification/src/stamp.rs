//! What makes one signature differ from the next: the time it was made at
//! and a nonce that is drawn anew for it.

use crate::error::PayError;
use crate::json::{decimal_digit, decimal_text, digits};
use rsa::rand_core::{OsRng, RngCore};
use vstd::prelude::*;
use vstd::string::*;

verus! {

/// Number of random bytes in a nonce; the nonce has two digits for each.
pub const NONCE_BYTES: usize = 16;

/// The timestamp and the nonce of one signature. Each message gets a stamp
/// of its own; no record is kept of the stamps that were used.
#[derive(Debug, Clone)]
pub struct Stamp {
    /// Seconds since the epoch, in decimal.
    pub timestamp: String,
    pub nonce: String,
}

/// The bytes as upper-case hexadecimal digits, two for each byte.
pub open spec fn hex_upper(bytes: Seq<u8>) -> Seq<char>
    decreases bytes.len(),
{
    if bytes.len() == 0 {
        Seq::empty()
    } else {
        hex_upper(bytes.drop_last()) + seq![
            "0123456789ABCDEF"@[bytes.last() as int / 16],
            "0123456789ABCDEF"@[bytes.last() as int % 16],
        ]
    }
}

/// `std::time::SystemTime`: a reading of the system clock, carried from
/// one call to the next without being looked into.
#[verifier::external_type_specification]
#[verifier::external_body]
pub struct ExSystemTime(std::time::SystemTime);

/// Calls `rand_core::OsRng::try_fill_bytes` on a buffer of `NONCE_BYTES`
/// bytes.
///
/// Trusted: no more than the length of what comes back; the bytes are the
/// operating system's to choose.
#[verifier::external_body]
pub(crate) fn random_bytes() -> (res: Option<Vec<u8>>)
    ensures
        res matches Some(bytes) ==> bytes@.len() == NONCE_BYTES,
{
    let mut bytes = vec![0u8; NONCE_BYTES];
    match OsRng.try_fill_bytes(&mut bytes) {
        Ok(()) => Some(bytes),
        Err(_) => None,
    }
}

/// Calls `std::time::SystemTime::now`. Nothing is promised of the result.
#[verifier::external_body]
pub(crate) fn system_time_now() -> std::time::SystemTime {
    std::time::SystemTime::now()
}

/// Calls `std::time::SystemTime::duration_since` with the epoch. Nothing is
/// promised of the result; a clock set before the epoch gives `None`.
#[verifier::external_body]
pub(crate) fn duration_since_epoch(now: &std::time::SystemTime) -> Option<std::time::Duration> {
    now.duration_since(std::time::UNIX_EPOCH).ok()
}

/// Calls `std::time::Duration::as_secs`. Nothing is promised of the result.
#[verifier::external_body]
pub(crate) fn whole_seconds(duration: &std::time::Duration) -> u64 {
    duration.as_secs()
}

fn hex_digit(d: u8) -> (res: &'static str)
    requires
        d < 16,
    ensures
        res@ == seq!["0123456789ABCDEF"@[d as int]],
{
    proof {
        reveal_strlit("0123456789ABCDEF");
        reveal_strlit("A");
        reveal_strlit("B");
        reveal_strlit("C");
        reveal_strlit("D");
        reveal_strlit("E");
        reveal_strlit("F");
        reveal_strlit("0123456789");
    }
    if d < 10 {
        let res = decimal_digit(d as u64);
        assert(res@ =~= seq!["0123456789ABCDEF"@[d as int]]);
        res
    } else {
        let res = if d == 10 {
            "A"
        } else if d == 11 {
            "B"
        } else if d == 12 {
            "C"
        } else if d == 13 {
            "D"
        } else if d == 14 {
            "E"
        } else {
            "F"
        };
        assert(res@ =~= seq!["0123456789ABCDEF"@[d as int]]);
        res
    }
}

/// Bytes as upper-case hexadecimal digits.
pub fn hex_text(bytes: &[u8]) -> (res: String)
    ensures
        res@ == hex_upper(bytes@),
{
    let mut text = String::new();
    let mut i: usize = 0;
    while i < bytes.len()
        invariant
            i <= bytes.len(),
            text@ == hex_upper(bytes@.take(i as int)),
        decreases bytes.len() - i,
    {
        let byte = bytes[i];
        text.append(hex_digit(byte / 16));
        text.append(hex_digit(byte % 16));
        proof {
            let longer = bytes@.take(i + 1);
            assert(longer.drop_last() =~= bytes@.take(i as int));
            assert(longer.last() == byte);
            assert(text@ =~= hex_upper(longer));
        }
        i += 1;
    }
    assert(bytes@.take(bytes.len() as int) =~= bytes@);
    text
}

impl Stamp {
    /// A stamp with a timestamp and a nonce of the caller's choosing.
    pub fn new(timestamp: &str, nonce: &str) -> (res: Self)
        ensures
            res.timestamp@ == timestamp@,
            res.nonce@ == nonce@,
    {
        Stamp { timestamp: timestamp.to_owned(), nonce: nonce.to_owned() }
    }

    /// The stamp for a clock that reads `seconds` and a draw that gave
    /// `random`.
    pub fn at(seconds: u64, random: &[u8]) -> (res: Self)
        ensures
            res.timestamp@ == digits(seconds as int),
            res.nonce@ == hex_upper(random@),
    {
        Stamp { timestamp: decimal_text(seconds), nonce: hex_text(random) }
    }

    /// Whether the stamp has the form of one that was drawn: the timestamp
    /// a number of seconds, the nonce the digits of `NONCE_BYTES` bytes.
    pub open spec fn is_drawn(&self) -> bool {
        &&& exists|seconds: u64| self.timestamp@ == digits(seconds as int)
        &&& exists|random: Seq<u8>|
            random.len() == NONCE_BYTES && self.nonce@ == hex_upper(random)
    }

    /// A stamp for now, with a nonce drawn from the operating system.
    ///
    /// Fails with `PayError::Signing` where the system gives no random
    /// bytes or its clock is set before the epoch.
    pub fn fresh() -> (res: Result<Self, PayError>)
        ensures
            match res {
                Ok(stamp) => stamp.is_drawn(),
                Err(e) => e == PayError::Signing,
            },
    {
        let now = system_time_now();
        match (duration_since_epoch(&now), random_bytes()) {
            (Some(elapsed), Some(random)) => {
                let seconds = whole_seconds(&elapsed);
                let stamp = Stamp::at(seconds, random.as_slice());
                assert(stamp.timestamp@ == digits(seconds as int));
                assert(random@.len() == NONCE_BYTES && stamp.nonce@ == hex_upper(random@));
                Ok(stamp)
            },
            _ => Err(PayError::Signing),
        }
    }
}

} // verus!
