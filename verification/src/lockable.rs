//! What a lock's deadline can be: a point in time, or a block number together
//! with a point in time.

use vstd::prelude::*;

use crate::scale::{
    decode_u32, decode_u64, encode_u32, encode_u64, le_prefix, le_value, lemma_byte_powers,
    lemma_le_roundtrip, lemma_le_value_fits,
    lemma_le_bytes_len, lemma_le_prefix_roundtrip, u32_decoding, u32_encoding, u64_decoding,
    u64_encoding,
};
use crate::time::{
    lemma_timestamp_of, lemma_timestamp_of_view, lemma_timestamp_roundtrip, saturating_add, saturating_sub, timestamp_decoding, Timestamp,
    STORAGE_LOCK_DEFAULT_EXPIRY_DURATION_MS, STORAGE_LOCK_PER_CHECK_ITERATION_SNOOZE,
};

verus! {

/// Lockable item for use with a persisted storage lock.
///
/// A value of the type is a reading of the lock's clock ("now") or a deadline
/// on it. The driver of a lock reads the current value; the methods here
/// decide with it.
pub trait Lockable: Sized + Copy {
    /// The deadline of a lock taken at `now`.
    spec fn spec_deadline(now: Self) -> Self;

    /// Whether a lock with deadline `deadline` has expired at `now`.
    spec fn spec_expired(now: Self, deadline: Self) -> bool;

    /// Until when to sleep at `now` before trying again a lock held until `deadline`.
    spec fn spec_snooze(now: Self, deadline: Self) -> Timestamp;

    /// How the value is stored.
    spec fn spec_encoding(self) -> Seq<u8>;

    /// What is read back from stored bytes, `None` where they are no such value.
    spec fn spec_decoding(bytes: Seq<u8>) -> Option<Self>;

    /// Acquire a new deadline based on the current value `now`.
    fn deadline(now: &Self) -> (r: Self)
        ensures
            r == Self::spec_deadline(*now),
    ;

    /// Verify the current value `self` against `deadline`
    /// to determine if the lock has expired.
    fn expired(&self, deadline: &Self) -> (r: bool)
        ensures
            r == Self::spec_expired(*self, *deadline),
    ;

    /// The time until which to snooze, where `self` is the current value and the
    /// lock is held until `deadline`.
    fn snooze(&self, deadline: &Self) -> (wake: Timestamp)
        ensures
            wake == Self::spec_snooze(*self, *deadline),
    ;

    /// Encodes the value for storage.
    fn encode(&self) -> (r: Vec<u8>)
        ensures
            r@ == self.spec_encoding(),
    ;

    /// Decodes a value from storage.
    fn decode(bytes: &[u8]) -> (r: Option<Self>)
        ensures
            r == Self::spec_decoding(bytes@),
    ;

    /// A stored value reads back as itself.
    proof fn lemma_decode_encode(v: Self)
        ensures
            Self::spec_decoding(v.spec_encoding()) == Some(v),
    ;
}

/// The time a lock on the clock reading `now`, held until `deadline`, still has
/// to wait: `deadline - now`, zero once the deadline has been reached.
pub open spec fn remaining(now: Timestamp, deadline: Timestamp) -> u64 {
    saturating_sub(deadline@, now@)
}

/// The snooze of a lock on the clock reading `now` held until `deadline`: the
/// remaining time, at most the per-iteration snooze, added to `now`.
pub open spec fn snooze_from(now: Timestamp, deadline: Timestamp) -> Timestamp {
    let remainder = remaining(now, deadline);
    let snooze = if remainder < STORAGE_LOCK_PER_CHECK_ITERATION_SNOOZE {
        remainder
    } else {
        STORAGE_LOCK_PER_CHECK_ITERATION_SNOOZE
    };
    crate::time::timestamp_of(saturating_add(now@, snooze))
}

fn snooze_timestamp(now: &Timestamp, deadline: &Timestamp) -> (wake: Timestamp)
    ensures
        wake == snooze_from(*now, *deadline),
{
    let remainder = deadline.diff_millis(now);
    // do not snooze the full duration, but instead snooze max 100ms
    // it might get unlocked in another thread
    let snooze = if remainder < STORAGE_LOCK_PER_CHECK_ITERATION_SNOOZE {
        remainder
    } else {
        STORAGE_LOCK_PER_CHECK_ITERATION_SNOOZE
    };
    let wake = now.add_millis(snooze);
    proof {
        lemma_timestamp_of(wake);
    }
    wake
}

impl Lockable for Timestamp {
    open spec fn spec_deadline(now: Self) -> Self {
        crate::time::timestamp_of(saturating_add(now@, STORAGE_LOCK_DEFAULT_EXPIRY_DURATION_MS))
    }

    open spec fn spec_expired(now: Self, deadline: Self) -> bool {
        now@ > deadline@
    }

    open spec fn spec_snooze(now: Self, deadline: Self) -> Timestamp {
        snooze_from(now, deadline)
    }

    open spec fn spec_encoding(self) -> Seq<u8> {
        u64_encoding(self@)
    }

    open spec fn spec_decoding(bytes: Seq<u8>) -> Option<Self> {
        timestamp_decoding(bytes)
    }

    fn deadline(now: &Self) -> (r: Self) {
        let r = now.add_millis(STORAGE_LOCK_DEFAULT_EXPIRY_DURATION_MS);
        proof {
            lemma_timestamp_of(r);
        }
        r
    }

    fn expired(&self, deadline: &Self) -> (r: bool) {
        self.unix_millis() > deadline.unix_millis()
    }

    fn snooze(&self, deadline: &Self) -> (wake: Timestamp) {
        snooze_timestamp(self, deadline)
    }

    fn encode(&self) -> (r: Vec<u8>) {
        Timestamp::encode(self)
    }

    fn decode(bytes: &[u8]) -> (r: Option<Self>) {
        Timestamp::decode(bytes)
    }

    proof fn lemma_decode_encode(v: Self) {
        lemma_timestamp_roundtrip(v, Seq::empty());
        assert(u64_encoding(v@) + Seq::<u8>::empty() =~= u64_encoding(v@));
    }
}

/// Bound for block numbers which commonly will be implemented by the
/// `frame_system::Trait::BlockNumber`.
///
/// Block numbers are ordered by their height and stored in their SCALE
/// encoding. Reading the current block number is the driver's part.
pub trait BlockNumberTrait: Sized + Copy {
    /// The height that orders block numbers.
    spec fn spec_height(self) -> nat;

    /// How the block number is stored.
    spec fn spec_encoding(self) -> Seq<u8>;

    /// What a decoder reads from the front of `bytes`: the number and how many
    /// bytes it took; `None` where it cannot read one.
    spec fn spec_decoding(bytes: Seq<u8>) -> Option<(Self, nat)>;

    /// Whether this block number comes after `other`.
    fn is_after(&self, other: &Self) -> (r: bool)
        ensures
            r == (self.spec_height() > other.spec_height()),
    ;

    /// Encodes the block number for storage.
    fn encode_number(&self) -> (r: Vec<u8>)
        ensures
            r@ == self.spec_encoding(),
    ;

    /// Decodes a block number from the front of `bytes`.
    fn decode_number(bytes: &[u8]) -> (r: Option<(Self, usize)>)
        ensures
            r matches Some((v, n)) ==> Self::spec_decoding(bytes@) == Some((v, n as nat)) && n
                <= bytes@.len(),
            r is None ==> Self::spec_decoding(bytes@) is None,
    ;

    /// A stored block number, followed by anything, reads back as itself.
    proof fn lemma_decode_encode(v: Self, rest: Seq<u8>)
        ensures
            Self::spec_decoding(v.spec_encoding() + rest) == Some((v, v.spec_encoding().len())),
    ;
}

impl BlockNumberTrait for u32 {
    open spec fn spec_height(self) -> nat {
        self as nat
    }

    open spec fn spec_encoding(self) -> Seq<u8> {
        u32_encoding(self)
    }

    open spec fn spec_decoding(bytes: Seq<u8>) -> Option<(Self, nat)> {
        match u32_decoding(bytes) {
            Some(v) => Some((v, 4)),
            None => None,
        }
    }

    fn is_after(&self, other: &Self) -> (r: bool) {
        *self > *other
    }

    fn encode_number(&self) -> (r: Vec<u8>) {
        encode_u32(*self)
    }

    fn decode_number(bytes: &[u8]) -> (r: Option<(Self, usize)>) {
        match decode_u32(bytes) {
            Some(v) => Some((v, 4)),
            None => None,
        }
    }

    proof fn lemma_decode_encode(v: Self, rest: Seq<u8>) {
        lemma_byte_powers();
        lemma_le_bytes_len(v as nat, 4);
        lemma_le_prefix_roundtrip(v as nat, 4, rest);
        assert(le_prefix(u32_encoding(v) + rest, 4) == Some(v as nat));
    }
}

impl BlockNumberTrait for u64 {
    open spec fn spec_height(self) -> nat {
        self as nat
    }

    open spec fn spec_encoding(self) -> Seq<u8> {
        u64_encoding(self)
    }

    open spec fn spec_decoding(bytes: Seq<u8>) -> Option<(Self, nat)> {
        match u64_decoding(bytes) {
            Some(v) => Some((v, 8)),
            None => None,
        }
    }

    fn is_after(&self, other: &Self) -> (r: bool) {
        *self > *other
    }

    fn encode_number(&self) -> (r: Vec<u8>) {
        encode_u64(*self)
    }

    fn decode_number(bytes: &[u8]) -> (r: Option<(Self, usize)>) {
        match decode_u64(bytes) {
            Some(v) => Some((v, 8)),
            None => None,
        }
    }

    proof fn lemma_decode_encode(v: Self, rest: Seq<u8>) {
        lemma_byte_powers();
        lemma_le_bytes_len(v as nat, 8);
        lemma_le_prefix_roundtrip(v as nat, 8, rest);
        assert(le_prefix(u64_encoding(v) + rest, 8) == Some(v as nat));
    }
}

/// Lockable based on the current block number and a timestamp based deadline.
#[derive(Clone, Copy, Debug)]
pub struct BlockAndTime<B> {
    pub block_number: B,
    pub timestamp: Timestamp,
}

impl<B: BlockNumberTrait> Lockable for BlockAndTime<B> {
    open spec fn spec_deadline(now: Self) -> Self {
        now
    }

    open spec fn spec_expired(now: Self, deadline: Self) -> bool {
        now.timestamp@ > deadline.timestamp@ || now.block_number.spec_height()
            > deadline.block_number.spec_height()
    }

    open spec fn spec_snooze(now: Self, deadline: Self) -> Timestamp {
        snooze_from(now.timestamp, deadline.timestamp)
    }

    open spec fn spec_encoding(self) -> Seq<u8> {
        self.block_number.spec_encoding() + u64_encoding(self.timestamp@)
    }

    open spec fn spec_decoding(bytes: Seq<u8>) -> Option<Self> {
        match B::spec_decoding(bytes) {
            Some((b, n)) => match timestamp_decoding(bytes.skip(n as int)) {
                Some(t) => Some(BlockAndTime { block_number: b, timestamp: t }),
                None => None,
            },
            None => None,
        }
    }

    fn deadline(now: &Self) -> (r: Self) {
        *now
    }

    fn expired(&self, deadline: &Self) -> (r: bool) {
        self.timestamp.unix_millis() > deadline.timestamp.unix_millis()
            || self.block_number.is_after(&deadline.block_number)
    }

    fn snooze(&self, deadline: &Self) -> (wake: Timestamp) {
        snooze_timestamp(&self.timestamp, &deadline.timestamp)
    }

    fn encode(&self) -> (r: Vec<u8>) {
        let mut bytes = self.block_number.encode_number();
        let mut time = self.timestamp.encode();
        bytes.append(&mut time);
        bytes
    }

    fn decode(bytes: &[u8]) -> (r: Option<Self>) {
        match B::decode_number(bytes) {
            Some((block_number, n)) => {
                let rest = &bytes[n..bytes.len()];
                assert(rest@ == bytes@.skip(n as int));
                match Timestamp::decode(rest) {
                    Some(timestamp) => Some(BlockAndTime { block_number, timestamp }),
                    None => None,
                }
            },
            None => None,
        }
    }

    proof fn lemma_decode_encode(v: Self) {
        let enc = v.block_number.spec_encoding();
        let time = u64_encoding(v.timestamp@);
        B::lemma_decode_encode(v.block_number, time);
        assert((enc + time).skip(enc.len() as int) =~= time);
        lemma_timestamp_roundtrip(v.timestamp, Seq::empty());
        assert(time + Seq::<u8>::empty() =~= time);
    }
}

/// A snooze sleeps at least until `now` and at most the per-iteration snooze
/// past it.
pub proof fn lemma_snooze_bounded(now: Timestamp, deadline: Timestamp)
    ensures
        now@ <= snooze_from(now, deadline)@,
        snooze_from(now, deadline)@ <= saturating_add(now@, STORAGE_LOCK_PER_CHECK_ITERATION_SNOOZE),
{
    lemma_snooze_view(now, deadline);
}

/// The milliseconds of a snooze's wake-up time.
pub proof fn lemma_snooze_view(now: Timestamp, deadline: Timestamp)
    ensures
        snooze_from(now, deadline)@ == saturating_add(
            now@,
            if remaining(now, deadline) < STORAGE_LOCK_PER_CHECK_ITERATION_SNOOZE {
                remaining(now, deadline)
            } else {
                STORAGE_LOCK_PER_CHECK_ITERATION_SNOOZE
            },
        ),
{
    lemma_timestamp_of_view(saturating_add(now@, if remaining(now, deadline) < STORAGE_LOCK_PER_CHECK_ITERATION_SNOOZE {
        remaining(now, deadline)
    } else {
        STORAGE_LOCK_PER_CHECK_ITERATION_SNOOZE
    }));
}

/// While the holder's deadline lies ahead, a snooze waits for the rest of it,
/// at most the per-iteration snooze, and never sleeps past the deadline.
pub proof fn lemma_snooze_before_deadline(now: Timestamp, deadline: Timestamp)
    requires
        now@ <= deadline@,
    ensures
        snooze_from(now, deadline)@ == now@ + (if deadline@ - now@ < STORAGE_LOCK_PER_CHECK_ITERATION_SNOOZE {
            deadline@ - now@
        } else {
            STORAGE_LOCK_PER_CHECK_ITERATION_SNOOZE as int
        }),
        snooze_from(now, deadline)@ <= deadline@,
{
    lemma_snooze_view(now, deadline);
}

/// Once the holder's deadline has been reached, a snooze does not sleep.
pub proof fn lemma_snooze_after_deadline(now: Timestamp, deadline: Timestamp)
    requires
        deadline@ <= now@,
    ensures
        snooze_from(now, deadline) == now,
{
    lemma_snooze_view(now, deadline);
    lemma_timestamp_of(now);
}

/// Without a deadline to snooze on, a lock waits the per-iteration snooze from
/// the off-chain worker's clock reading `clock`.
pub fn default_snooze(clock: &Timestamp) -> (wake: Timestamp)
    ensures
        wake@ == saturating_add(clock@, STORAGE_LOCK_PER_CHECK_ITERATION_SNOOZE),
{
    clock.add_millis(STORAGE_LOCK_PER_CHECK_ITERATION_SNOOZE)
}

/// A default timestamp deadline lies the default expiry duration after the
/// time the lock was taken, and has not passed then.
pub proof fn lemma_timestamp_deadline(now: Timestamp)
    ensures
        Timestamp::spec_deadline(now)@ == saturating_add(now@, STORAGE_LOCK_DEFAULT_EXPIRY_DURATION_MS),
        !Timestamp::spec_expired(now, Timestamp::spec_deadline(now)),
{
    lemma_timestamp_of_view(saturating_add(now@, STORAGE_LOCK_DEFAULT_EXPIRY_DURATION_MS));
}

/// Once a timestamp deadline has passed, it stays passed.
pub proof fn lemma_timestamp_expiry_lasts(now: Timestamp, later: Timestamp, deadline: Timestamp)
    requires
        Timestamp::spec_expired(now, deadline),
        now@ <= later@,
    ensures
        Timestamp::spec_expired(later, deadline),
{
}

/// Once a block-and-time deadline has passed, it stays passed as the clock and
/// the chain move on.
pub proof fn lemma_block_and_time_expiry_lasts<B: BlockNumberTrait>(
    now: BlockAndTime<B>,
    later: BlockAndTime<B>,
    deadline: BlockAndTime<B>,
)
    requires
        BlockAndTime::<B>::spec_expired(now, deadline),
        now.timestamp@ <= later.timestamp@,
        now.block_number.spec_height() <= later.block_number.spec_height(),
    ensures
        BlockAndTime::<B>::spec_expired(later, deadline),
{
}

/// A block-and-time lock's default deadline is the reading it was taken at,
/// which has not passed at that reading.
pub proof fn lemma_block_and_time_deadline<B: BlockNumberTrait>(now: BlockAndTime<B>)
    ensures
        BlockAndTime::<B>::spec_deadline(now) == now,
        !BlockAndTime::<B>::spec_expired(now, BlockAndTime::<B>::spec_deadline(now)),
{
}

/// A timestamp lock's snooze: it wakes no earlier than `now` and at most the
/// per-iteration snooze (100 ms) later; while the holder's deadline lies ahead it
/// wakes at that deadline or 100 ms from `now`, whichever comes first; once the
/// deadline is reached it does not sleep.
pub proof fn lemma_timestamp_snooze(now: Timestamp, deadline: Timestamp)
    ensures
        now@ <= Timestamp::spec_snooze(now, deadline)@,
        Timestamp::spec_snooze(now, deadline)@ <= now@ + 100,
        now@ <= deadline@ ==> Timestamp::spec_snooze(now, deadline)@ == (if deadline@ < now@ + 100 {
            deadline@ as int
        } else {
            now@ + 100
        }),
        deadline@ <= now@ ==> Timestamp::spec_snooze(now, deadline) == now,
{
    lemma_snooze_view(now, deadline);
    if deadline@ <= now@ {
        lemma_snooze_after_deadline(now, deadline);
    }
}

/// A block-and-time lock's snooze goes by the timestamps alone: it wakes no
/// earlier than the current time and at most 100 ms later; while the holder's
/// time deadline lies ahead it wakes at that deadline or 100 ms from now,
/// whichever comes first, whatever the block numbers; once the time deadline
/// is reached it does not sleep.
pub proof fn lemma_block_and_time_snooze<B: BlockNumberTrait>(now: BlockAndTime<B>, deadline: BlockAndTime<B>)
    ensures
        now.timestamp@ <= BlockAndTime::<B>::spec_snooze(now, deadline)@,
        BlockAndTime::<B>::spec_snooze(now, deadline)@ <= now.timestamp@ + 100,
        now.timestamp@ <= deadline.timestamp@ ==> BlockAndTime::<B>::spec_snooze(now, deadline)@ == (
        if deadline.timestamp@ < now.timestamp@ + 100 {
            deadline.timestamp@ as int
        } else {
            now.timestamp@ + 100
        }),
        deadline.timestamp@ <= now.timestamp@ ==> BlockAndTime::<B>::spec_snooze(now, deadline)
            == now.timestamp,
{
    lemma_snooze_view(now.timestamp, deadline.timestamp);
    if deadline.timestamp@ <= now.timestamp@ {
        lemma_snooze_after_deadline(now.timestamp, deadline.timestamp);
    }
}

/// A timestamp deadline has expired exactly when the clock is strictly past it.
pub proof fn lemma_timestamp_expired(now: Timestamp, deadline: Timestamp)
    ensures
        Timestamp::spec_expired(now, deadline) <==> now@ > deadline@,
{
}

/// `u32` block numbers are ordered as numbers: one comes after another exactly
/// when it is greater.
pub proof fn lemma_u32_block_order(a: u32, b: u32)
    ensures
        a.spec_height() > b.spec_height() <==> a > b,
{
}

/// `u64` block numbers are ordered as numbers: one comes after another exactly
/// when it is greater.
pub proof fn lemma_u64_block_order(a: u64, b: u64)
    ensures
        a.spec_height() > b.spec_height() <==> a > b,
{
}

/// A block-and-time deadline has expired as soon as either the time or the
/// block number has passed it; a passed block number alone is enough.
pub proof fn lemma_block_and_time_expired<B: BlockNumberTrait>(now: BlockAndTime<B>, deadline: BlockAndTime<B>)
    ensures
        now.timestamp@ > deadline.timestamp@ ==> BlockAndTime::<B>::spec_expired(now, deadline),
        now.block_number.spec_height() > deadline.block_number.spec_height()
            ==> BlockAndTime::<B>::spec_expired(now, deadline),
        now.timestamp@ <= deadline.timestamp@ && now.block_number.spec_height()
            <= deadline.block_number.spec_height() ==> !BlockAndTime::<B>::spec_expired(now, deadline),
{
}

/// With `u32` block numbers, a block-and-time deadline has expired exactly when
/// the time is strictly past it or the block number is greater.
pub proof fn lemma_block_and_time_expired_u32(now: BlockAndTime<u32>, deadline: BlockAndTime<u32>)
    ensures
        BlockAndTime::<u32>::spec_expired(now, deadline) <==> (now.timestamp@ > deadline.timestamp@
            || now.block_number > deadline.block_number),
{
    lemma_u32_block_order(now.block_number, deadline.block_number);
}

/// With `u64` block numbers, a block-and-time deadline has expired exactly when
/// the time is strictly past it or the block number is greater.
pub proof fn lemma_block_and_time_expired_u64(now: BlockAndTime<u64>, deadline: BlockAndTime<u64>)
    ensures
        BlockAndTime::<u64>::spec_expired(now, deadline) <==> (now.timestamp@ > deadline.timestamp@
            || now.block_number > deadline.block_number),
{
    lemma_u64_block_order(now.block_number, deadline.block_number);
}

/// A timestamp is stored as eight bytes whose little-endian value is its
/// milliseconds.
pub proof fn lemma_timestamp_encoding(t: Timestamp)
    ensures
        t.spec_encoding().len() == 8,
        le_value(t.spec_encoding()) == t@,
{
    lemma_byte_powers();
    lemma_le_roundtrip(t@ as nat, 8);
}

/// A block-and-time value is stored as its block number's bytes followed by
/// eight bytes whose little-endian value is the timestamp's milliseconds.
pub proof fn lemma_block_and_time_encoding<B: BlockNumberTrait>(v: BlockAndTime<B>)
    ensures
        v.spec_encoding().take(v.block_number.spec_encoding().len() as int) == v.block_number.spec_encoding(),
        v.spec_encoding().len() == v.block_number.spec_encoding().len() + 8,
        le_value(v.spec_encoding().skip(v.block_number.spec_encoding().len() as int)) == v.timestamp@,
{
    let b = v.block_number.spec_encoding();
    lemma_timestamp_encoding(v.timestamp);
    assert(v.spec_encoding().take(b.len() as int) =~= b);
    assert(v.spec_encoding().skip(b.len() as int) =~= v.timestamp.spec_encoding());
}

/// `u32` and `u64` block numbers are stored as four and eight bytes whose
/// little-endian value is the number.
pub proof fn lemma_block_number_encodings(a: u32, b: u64)
    ensures
        a.spec_encoding().len() == 4,
        le_value(a.spec_encoding()) == a,
        b.spec_encoding().len() == 8,
        le_value(b.spec_encoding()) == b,
{
    lemma_byte_powers();
    lemma_le_roundtrip(a as nat, 4);
    lemma_le_roundtrip(b as nat, 8);
}

/// Reading a timestamp from storage takes the first eight bytes as its
/// little-endian milliseconds, and fails exactly when fewer are there.
pub proof fn lemma_timestamp_decoding(bytes: Seq<u8>)
    ensures
        Timestamp::spec_decoding(bytes) is Some <==> bytes.len() >= 8,
        Timestamp::spec_decoding(bytes) matches Some(t) ==> t@ == le_value(bytes.take(8)),
{
    if bytes.len() >= 8 {
        lemma_le_value_fits(bytes.take(8));
        lemma_byte_powers();
        lemma_timestamp_of_view(le_value(bytes.take(8)) as u64);
    }
}

/// Reading a `u32` or `u64` block number from storage takes its first four or
/// eight bytes as a little-endian number, and fails exactly when fewer are there.
pub proof fn lemma_block_number_decodings(bytes: Seq<u8>)
    ensures
        <u32 as BlockNumberTrait>::spec_decoding(bytes) is Some <==> bytes.len() >= 4,
        <u32 as BlockNumberTrait>::spec_decoding(bytes) matches Some((v, n)) ==> n == 4 && v
            == le_value(bytes.take(4)),
        <u64 as BlockNumberTrait>::spec_decoding(bytes) is Some <==> bytes.len() >= 8,
        <u64 as BlockNumberTrait>::spec_decoding(bytes) matches Some((v, n)) ==> n == 8 && v
            == le_value(bytes.take(8)),
{
    lemma_byte_powers();
    if bytes.len() >= 4 {
        lemma_le_value_fits(bytes.take(4));
    }
    if bytes.len() >= 8 {
        lemma_le_value_fits(bytes.take(8));
    }
}

/// Reading a block-and-time value from storage reads the block number, then a
/// timestamp from the bytes after it; it fails where either read fails.
pub proof fn lemma_block_and_time_decoding<B: BlockNumberTrait>(bytes: Seq<u8>)
    ensures
        B::spec_decoding(bytes) is None ==> BlockAndTime::<B>::spec_decoding(bytes) is None,
        B::spec_decoding(bytes) matches Some((b, n)) ==> BlockAndTime::<B>::spec_decoding(bytes) == (
        match Timestamp::spec_decoding(bytes.skip(n as int)) {
            Some(t) => Some(BlockAndTime { block_number: b, timestamp: t }),
            None => None::<BlockAndTime<B>>,
        }),
{
}

/// With no deadline found, a spinning timestamp lock snoozes 100 ms from now
/// (up to the end of time).
pub proof fn lemma_timestamp_snooze_without_holder(now: Timestamp)
    ensures
        Timestamp::spec_snooze(now, Timestamp::spec_deadline(now))@ == (if now@ + 100 <= u64::MAX {
            now@ + 100
        } else {
            u64::MAX as int
        }),
{
    lemma_timestamp_deadline(now);
    lemma_snooze_view(now, Timestamp::spec_deadline(now));
}

/// With no deadline found, a spinning block-and-time lock snoozes on its fresh
/// deadline, which is the current reading: it does not sleep.
pub proof fn lemma_block_and_time_snooze_without_holder<B: BlockNumberTrait>(now: BlockAndTime<B>)
    ensures
        BlockAndTime::<B>::spec_snooze(now, BlockAndTime::<B>::spec_deadline(now)) == now.timestamp,
{
    lemma_block_and_time_snooze(now, BlockAndTime::<B>::spec_deadline(now));
}

} // verus!
