//! Points in time on the off-chain worker's clock, with the arithmetic that
//! `sp-core` defines on its `Timestamp` and `Duration`.

use vstd::prelude::*;

use crate::scale::{le_prefix, lemma_byte_powers, lemma_le_prefix_roundtrip, u64_decoding, u64_encoding};

verus! {

/// Default expiry duration in milliseconds.
pub const STORAGE_LOCK_DEFAULT_EXPIRY_DURATION_MS: u64 = 30_000;

/// Snooze duration before attempting to lock again in ms.
pub const STORAGE_LOCK_PER_CHECK_ITERATION_SNOOZE: u64 = 100;

/// A point in time: milliseconds since the UNIX epoch.
#[derive(Clone, Copy, PartialEq, Eq, Structural, Debug)]
pub struct Timestamp {
    millis: u64,
}

impl View for Timestamp {
    type V = u64;

    closed spec fn view(&self) -> u64 {
        self.millis
    }
}

/// `a + b`, or `u64::MAX` where that does not fit.
pub open spec fn saturating_add(a: u64, b: u64) -> u64 {
    if a + b > u64::MAX {
        u64::MAX
    } else {
        (a + b) as u64
    }
}

/// `a - b`, or `0` where that is negative.
pub open spec fn saturating_sub(a: u64, b: u64) -> u64 {
    if a >= b {
        (a - b) as u64
    } else {
        0
    }
}

impl Timestamp {
    /// Creates a timestamp from milliseconds since the UNIX epoch.
    pub fn from_unix_millis(millis: u64) -> (r: Timestamp)
        ensures
            r@ == millis,
    {
        Timestamp { millis }
    }

    /// Milliseconds since the UNIX epoch.
    pub fn unix_millis(&self) -> (r: u64)
        ensures
            r == self@,
    {
        self.millis
    }

    /// This timestamp moved `millis` milliseconds later, saturating at the end of time.
    pub fn add_millis(&self, millis: u64) -> (r: Timestamp)
        ensures
            r@ == saturating_add(self@, millis),
    {
        Timestamp { millis: timestamp_add(self.millis, millis) }
    }

    /// The milliseconds from `other` to this timestamp, or zero where `other` is later.
    pub fn diff_millis(&self, other: &Timestamp) -> (r: u64)
        ensures
            r == saturating_sub(self@, other@),
    {
        timestamp_diff(self.millis, other.millis)
    }

    /// The SCALE encoding of this timestamp, as `sp-core` stores one.
    pub fn encode(&self) -> (r: Vec<u8>)
        ensures
            r@ == u64_encoding(self@),
    {
        encode_timestamp(self.millis)
    }

    /// Decodes a timestamp from the front of `bytes`; `None` where fewer than
    /// eight bytes are there.
    pub fn decode(bytes: &[u8]) -> (r: Option<Timestamp>)
        ensures
            r == timestamp_decoding(bytes@),
    {
        match decode_timestamp(bytes) {
            Some(millis) => Some(Timestamp { millis }),
            None => None,
        }
    }
}

/// What decoding a timestamp reads from the front of `bytes`.
pub open spec fn timestamp_decoding(bytes: Seq<u8>) -> Option<Timestamp> {
    match u64_decoding(bytes) {
        Some(v) => Some(timestamp_of(v)),
        None => None,
    }
}

/// The timestamp `millis` milliseconds after the UNIX epoch.
pub closed spec fn timestamp_of(millis: u64) -> Timestamp {
    Timestamp { millis }
}

/// A timestamp is `timestamp_of` its milliseconds.
pub proof fn lemma_timestamp_of(t: Timestamp)
    ensures
        t == timestamp_of(t@),
        timestamp_of(t@)@ == t@,
{
}

/// `timestamp_of(millis)` is `millis` milliseconds after the epoch.
pub proof fn lemma_timestamp_of_view(millis: u64)
    ensures
        timestamp_of(millis)@ == millis,
{
}

/// Decoding what was encoded, followed by anything, gives the timestamp back.
pub proof fn lemma_timestamp_roundtrip(t: Timestamp, rest: Seq<u8>)
    ensures
        timestamp_decoding(u64_encoding(t@) + rest) == Some(t),
{
    lemma_byte_powers();
    lemma_le_prefix_roundtrip(t@ as nat, 8, rest);
    assert(le_prefix(u64_encoding(t@) + rest, 8) == Some(t@ as nat));
    assert(timestamp_of(t@) == t);
}

/// `Timestamp::add` from sp-core, with `Duration::from_millis`: the sum in
/// milliseconds, saturating at `u64::MAX`.
#[verifier::external_body]
fn timestamp_add(millis: u64, duration: u64) -> (r: u64)
    ensures
        r == saturating_add(millis, duration),
{
    sp_core::offchain::Timestamp::from_unix_millis(millis).add(
        sp_core::offchain::Duration::from_millis(duration),
    ).unix_millis()
}

/// `Timestamp::diff` from sp-core, read with `Duration::millis`: the
/// difference in milliseconds, zero where `other` is the later one.
#[verifier::external_body]
fn timestamp_diff(millis: u64, other: u64) -> (r: u64)
    ensures
        r == saturating_sub(millis, other),
{
    sp_core::offchain::Timestamp::from_unix_millis(millis).diff(
        &sp_core::offchain::Timestamp::from_unix_millis(other),
    ).millis()
}

/// `<Timestamp as Encode>::encode` from sp-core and parity-scale-codec: the
/// timestamp's milliseconds as eight little-endian bytes.
#[verifier::external_body]
fn encode_timestamp(millis: u64) -> (r: Vec<u8>)
    ensures
        r@ == u64_encoding(millis),
{
    parity_scale_codec::Encode::encode(&sp_core::offchain::Timestamp::from_unix_millis(millis))
}

/// `<Timestamp as Decode>::decode` from sp-core and parity-scale-codec on a
/// byte slice: the first eight bytes read little-endian as milliseconds; an
/// error when fewer than eight are there.
#[verifier::external_body]
fn decode_timestamp(bytes: &[u8]) -> (r: Option<u64>)
    ensures
        r == u64_decoding(bytes@),
{
    match <sp_core::offchain::Timestamp as parity_scale_codec::Decode>::decode(&mut &bytes[..]) {
        Ok(t) => Some(t.unix_millis()),
        Err(_) => None,
    }
}

} // verus!
