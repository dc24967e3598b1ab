//! # Offchain Storage Lock
//!
//! A storage-based lock with a defined expiry time.
//!
//! The lock is kept in the persistent local storage of the off-chain worker
//! and synchronizes access to a critical section of code between concurrently
//! running off-chain workers: only one of them holds the lock at a time, until
//! the lock's deadline passes.
//!
//! The functions here decide. The driver reads the clock and the lock's storage
//! entry, hands the readings in, performs the compare-and-set, clear or sleep
//! that it is asked for, and hands back whether the write went through.

use vstd::prelude::*;

use crate::lockable::{BlockAndTime, BlockNumberTrait, Lockable};
use crate::time::Timestamp;

verus! {

/// A persisted guard state.
///
/// An in-storage mutex for multi-access items which are modified, i.e. vecs or sets.
pub struct StorageLock<L> {
    /// The key of the storage entry that represents the lock.
    key: Vec<u8>,
    /// The deadline written when the lock is taken.
    deadline: L,
}

/// The write that takes a lock: store `new` under `key`, provided the entry
/// still holds `expected` (`None`: no entry).
pub struct LockWrite {
    pub key: Vec<u8>,
    pub expected: Option<Vec<u8>>,
    pub new: Vec<u8>,
}

/// What an attempt to take a lock decides, given the clock reading `now`, the
/// bytes found in the lock's entry (`None`: no entry) and the deadline to write:
/// the deadline to write, or why the lock cannot be taken — `Some` of the
/// deadline of a lock still held, or `None` where the entry holds no deadline.
pub open spec fn lock_decision<L: Lockable>(now: L, stored: Option<Seq<u8>>, new_deadline: L) -> Result<L, Option<L>> {
    match stored {
        // no lock set, we can safely acquire it
        None => Ok(new_deadline),
        Some(bytes) => match L::spec_decoding(bytes) {
            // lock is set, but it's old. We can re-acquire it.
            Some(deadline) => if L::spec_expired(now, deadline) {
                Ok(new_deadline)
            } else {
                // lock is present and is still active
                Err(Some(deadline))
            },
            None => Err(None),
        },
    }
}

/// The bytes of an optional storage value.
pub open spec fn stored_bytes(stored: Option<Vec<u8>>) -> Option<Seq<u8>> {
    match stored {
        Some(v) => Some(v@),
        None => None,
    }
}

/// Whether `write` is the write that takes the lock keyed `key` with the
/// deadline `deadline`, over the entry found holding `stored`.
pub open spec fn writes_deadline<L: Lockable>(write: LockWrite, key: Seq<u8>, stored: Option<Seq<u8>>, deadline: L) -> bool {
    &&& write.key@ == key
    &&& stored_bytes(write.expected) == stored
    &&& write.new@ == deadline.spec_encoding()
}

/// The deadline a spinning lock snoozes on after a failed attempt that found
/// `failure`: the deadline of the lock that holds the entry, or else a fresh
/// deadline from `now`.
pub open spec fn spin_deadline<L: Lockable>(failure: Option<L>, now: L) -> L {
    match failure {
        Some(deadline) => deadline,
        None => L::spec_deadline(now),
    }
}

impl<L: Lockable> StorageLock<L> {
    /// The key of the lock's storage entry.
    pub closed spec fn lock_key(&self) -> Seq<u8> {
        self.key@
    }

    /// The deadline the lock writes when taken.
    pub closed spec fn lock_deadline(&self) -> L {
        self.deadline
    }

    /// Create a new storage lock under `key`, with the default deadline from the
    /// clock reading `now`.
    pub fn new(key: &[u8], now: &L) -> (r: Self)
        ensures
            r.lock_key() == key@,
            r.lock_deadline() == L::spec_deadline(*now),
    {
        StorageLock { key: vstd::slice::slice_to_vec(key), deadline: L::deadline(now) }
    }

    /// The key of the lock's storage entry.
    pub fn key(&self) -> (r: &[u8])
        ensures
            r@ == self.lock_key(),
    {
        self.key.as_slice()
    }

    /// The deadline the lock writes when taken.
    pub fn deadline(&self) -> (r: L)
        ensures
            r == self.lock_deadline(),
    {
        self.deadline
    }

    fn try_lock_inner(&self, new_deadline: L, now: &L, stored: Option<Vec<u8>>) -> (r: Result<LockWrite, Option<L>>)
        ensures
            match lock_decision(*now, stored_bytes(stored), new_deadline) {
                Ok(deadline) => (r matches Ok(write) && writes_deadline(write, self.lock_key(), stored_bytes(stored), deadline)),
                Err(e) => r == Err::<LockWrite, Option<L>>(e),
            },
    {
        let decided: Result<L, Option<L>> = match &stored {
            None => Ok(new_deadline),
            Some(bytes) => match L::decode(bytes.as_slice()) {
                Some(deadline) => if now.expired(&deadline) {
                    Ok(new_deadline)
                } else {
                    Err(Some(deadline))
                },
                None => Err(None),
            },
        };
        match decided {
            Ok(deadline) => {
                let new = deadline.encode();
                Ok(LockWrite { key: vstd::slice::slice_to_vec(self.key.as_slice()), expected: stored, new })
            },
            Err(e) => Err(e),
        }
    }

    /// Attempt to lock the storage entry, at the clock reading `now`, with the
    /// entry found holding `stored`.
    ///
    /// Returns the compare-and-set that takes the lock, which the caller
    /// performs and reports to [`StorageLock::lock_outcome`]; or an error
    /// containing `None` where the entry holds no deadline that can be read, or
    /// `Some(deadline)` while the lock is held by another process until
    /// `deadline`.
    pub fn try_lock(&self, now: &L, stored: Option<Vec<u8>>) -> (r: Result<LockWrite, Option<L>>)
        ensures
            match lock_decision(*now, stored_bytes(stored), self.lock_deadline()) {
                Ok(deadline) => (r matches Ok(write) && writes_deadline(write, self.lock_key(), stored_bytes(stored), deadline)),
                Err(e) => r == Err::<LockWrite, Option<L>>(e),
            },
    {
        self.try_lock_inner(self.deadline, now, stored)
    }

    /// The outcome of the compare-and-set `write` asked for by
    /// [`StorageLock::try_lock`]: a guard over the lock where the write went
    /// through, otherwise an error containing `None` (another process changed
    /// the entry in between).
    pub fn lock_outcome(&self, write: LockWrite, written: bool) -> (r: Result<StorageLockGuard, Option<L>>)
        ensures
            written ==> (r matches Ok(guard) && guard.pending_unlock() == Some(write.key@)
                && guard.granted() == write.new@),
            !written ==> (r matches Err(e) && e is None),
    {
        if written {
            Ok(StorageLockGuard { lock: Some(write.key), granted: write.new })
        } else {
            Err(None)
        }
    }

    /// Whether the lock's own deadline has passed at the clock reading `now`:
    /// a spinning lock that has not caught the lock by then gives up.
    pub fn expired_at(&self, now: &L) -> (r: bool)
        ensures
            r == L::spec_expired(*now, self.lock_deadline()),
    {
        now.expired(&self.deadline)
    }

    /// One turn of spinning for the lock until it is taken: after an attempt
    /// that failed with `failure`, at the clock reading `now`, the time until
    /// which to sleep before the next blind attempt; or, once the lock's own
    /// deadline has passed before it could be caught, an error with `failure`.
    ///
    /// The lock snoozes on the deadline of the lock that holds the entry, or,
    /// where there is none, on a fresh default deadline.
    pub fn spin_lock(&self, failure: Option<L>, now: &L) -> (r: Result<Timestamp, Option<L>>)
        ensures
            L::spec_expired(*now, self.lock_deadline()) ==> r == Err::<Timestamp, Option<L>>(failure),
            !L::spec_expired(*now, self.lock_deadline()) ==> r == Ok::<Timestamp, Option<L>>(
                L::spec_snooze(*now, spin_deadline(failure, *now)),
            ),
    {
        if now.expired(&self.deadline) {
            return Err(failure);
        }
        let deadline = match failure {
            Some(other_locks_deadline) => other_locks_deadline,
            None => L::deadline(now),
        };
        Ok(now.snooze(&deadline))
    }

    /// Explicitly unlock the lock: the key of the storage entry to clear.
    pub fn unlock(&self) -> (r: Vec<u8>)
        ensures
            r@ == self.lock_key(),
    {
        vstd::slice::slice_to_vec(self.key.as_slice())
    }
}

/// Extension trait for locks based on [`Timestamp`].
///
/// Allows explicitly setting the timeout on construction instead of using the
/// implicit default timeout of `STORAGE_LOCK_DEFAULT_EXPIRY_DURATION_MS`.
pub trait TimeLock: Sized {
    /// Provide an explicit deadline timestamp at which the locked state of the
    /// lock becomes stale and may be dismissed by `try_lock`, `spin_lock` and others.
    fn with_deadline(key: &[u8], lock_deadline: Timestamp) -> Self;
}

impl TimeLock for StorageLock<Timestamp> {
    fn with_deadline(key: &[u8], lock_deadline: Timestamp) -> (r: Self)
        ensures
            r.lock_key() == key@,
            r.lock_deadline() == lock_deadline,
    {
        StorageLock { key: vstd::slice::slice_to_vec(key), deadline: lock_deadline }
    }
}

/// Extension for storage locks which are based on blocks in addition to a timestamp.
pub trait BlockAndTimeLock<B: BlockNumberTrait>: Sized {
    /// Provide an explicit deadline block number and timestamp.
    fn with_block_and_time_deadline(key: &[u8], block_deadline: B, time_deadline: Timestamp) -> Self;
}

impl<B: BlockNumberTrait> BlockAndTimeLock<B> for StorageLock<BlockAndTime<B>> {
    fn with_block_and_time_deadline(key: &[u8], block_deadline: B, time_deadline: Timestamp) -> (r: Self)
        ensures
            r.lock_key() == key@,
            r.lock_deadline() == (BlockAndTime { block_number: block_deadline, timestamp: time_deadline }),
    {
        StorageLock {
            key: vstd::slice::slice_to_vec(key),
            deadline: BlockAndTime { block_number: block_deadline, timestamp: time_deadline },
        }
    }
}

/// RAII style guard for a lock: while it is not forgotten, dropping it unlocks.
pub struct StorageLockGuard {
    /// The key of the entry to clear on drop.
    lock: Option<Vec<u8>>,
    /// The bytes whose write took the lock.
    granted: Vec<u8>,
}

impl StorageLockGuard {
    /// The key of the storage entry that dropping the guard clears, if any.
    pub closed spec fn pending_unlock(&self) -> Option<Seq<u8>> {
        stored_bytes(self.lock)
    }

    /// The bytes whose write took the lock: the encoding of its deadline.
    pub closed spec fn granted(&self) -> Seq<u8> {
        self.granted@
    }

    /// Consume the guard but DO NOT unlock the underlying lock.
    pub fn forget(&mut self)
        ensures
            final(self).pending_unlock() is None,
            final(self).granted() == old(self).granted(),
    {
        self.lock = None;
    }

    /// What dropping the guard does: the key of the entry to clear, once.
    pub fn release(&mut self) -> (r: Option<Vec<u8>>)
        ensures
            stored_bytes(r) == old(self).pending_unlock(),
            final(self).pending_unlock() is None,
            final(self).granted() == old(self).granted(),
    {
        let lock = self.lock.take();
        lock
    }
}

/// An entry holding a deadline that has not passed refuses every attempt to
/// take the lock, reporting that deadline.
pub proof fn lemma_held_lock_refuses<L: Lockable>(deadline: L, now: L, new_deadline: L)
    requires
        !L::spec_expired(now, deadline),
    ensures
        lock_decision(now, Some(deadline.spec_encoding()), new_deadline) == Err::<L, Option<L>>(Some(deadline)),
{
    L::lemma_decode_encode(deadline);
}

/// An entry holding a deadline that has passed lets the lock be taken again.
pub proof fn lemma_expired_lock_retaken<L: Lockable>(deadline: L, now: L, new_deadline: L)
    requires
        L::spec_expired(now, deadline),
    ensures
        lock_decision(now, Some(deadline.spec_encoding()), new_deadline) == Ok::<L, Option<L>>(new_deadline),
{
    L::lemma_decode_encode(deadline);
}

/// Once the lock's entry is cleared (unlocked, or never written), the lock can be taken.
pub proof fn lemma_free_entry_taken<L: Lockable>(now: L, new_deadline: L)
    ensures
        lock_decision(now, None, new_deadline) == Ok::<L, Option<L>>(new_deadline),
{
}

/// Mutual exclusion: after the write that takes a lock with deadline
/// `deadline` has gone through, any attempt on that entry made before the
/// deadline passes is refused with that deadline.
pub proof fn lemma_taken_lock_excludes<L: Lockable>(
    write: LockWrite,
    key: Seq<u8>,
    stored: Option<Seq<u8>>,
    deadline: L,
    now: L,
    other_deadline: L,
)
    requires
        writes_deadline(write, key, stored, deadline),
        !L::spec_expired(now, deadline),
    ensures
        lock_decision(now, Some(write.new@), other_deadline) == Err::<L, Option<L>>(Some(deadline)),
{
    lemma_held_lock_refuses(deadline, now, other_deadline);
}

/// The entry of the off-chain storage `storage` under `key`.
pub open spec fn entry(storage: Map<Seq<u8>, Seq<u8>>, key: Seq<u8>) -> Option<Seq<u8>> {
    if storage.contains_key(key) {
        Some(storage[key])
    } else {
        None
    }
}

/// The local storage's compare-and-set of `write`, as the off-chain storage
/// performs it atomically: whether the entry under `write.key` held
/// `write.expected`, and the storage afterwards, with `write.new` stored there
/// if it did and unchanged otherwise.
pub open spec fn compare_and_set(storage: Map<Seq<u8>, Seq<u8>>, write: LockWrite) -> (bool, Map<Seq<u8>, Seq<u8>>) {
    if entry(storage, write.key@) == stored_bytes(write.expected) {
        (true, storage.insert(write.key@, write.new@))
    } else {
        (false, storage)
    }
}

/// Without a concurrent writer, the write that an attempt asks for goes
/// through: it stores the lock's deadline under the lock's key, which reads
/// back as that deadline, and leaves every other entry as it was.
pub proof fn lemma_granted_write_stores_deadline<L: Lockable>(
    storage: Map<Seq<u8>, Seq<u8>>,
    key: Seq<u8>,
    deadline: L,
    write: LockWrite,
)
    requires
        writes_deadline(write, key, entry(storage, key), deadline),
    ensures
        compare_and_set(storage, write).0,
        entry(compare_and_set(storage, write).1, key) == Some(deadline.spec_encoding()),
        L::spec_decoding(compare_and_set(storage, write).1[key]) == Some(deadline),
        forall|k: Seq<u8>| k != key ==> entry(#[trigger] compare_and_set(storage, write).1, k) == entry(storage, k),
{
    L::lemma_decode_encode(deadline);
}

/// Of two attempts on one lock entry that read it at the same time, at most
/// one takes the lock: once the first write has changed the entry, the second
/// write, conditional on the entry it read, fails, and the entry keeps the
/// first deadline.
pub proof fn lemma_one_concurrent_winner<L: Lockable>(
    storage: Map<Seq<u8>, Seq<u8>>,
    key: Seq<u8>,
    first: LockWrite,
    first_deadline: L,
    second: LockWrite,
    second_deadline: L,
)
    requires
        writes_deadline(first, key, entry(storage, key), first_deadline),
        writes_deadline(second, key, entry(storage, key), second_deadline),
        entry(storage, key) != Some(first_deadline.spec_encoding()),
    ensures
        compare_and_set(storage, first).0,
        !compare_and_set(compare_and_set(storage, first).1, second).0,
        entry(compare_and_set(compare_and_set(storage, first).1, second).1, key) == Some(
            first_deadline.spec_encoding(),
        ),
{
    lemma_granted_write_stores_deadline(storage, key, first_deadline, first);
}

/// An attempt on an entry that is free, or holds a deadline that has passed at
/// `now`, is granted the write of the lock's own deadline.
pub proof fn lemma_stale_entry_granted<L: Lockable>(stored: Option<Seq<u8>>, now: L, own_deadline: L)
    requires
        stored matches Some(bytes) ==> (L::spec_decoding(bytes) matches Some(d) && L::spec_expired(now, d)),
    ensures
        lock_decision(now, stored, own_deadline) == Ok::<L, Option<L>>(own_deadline),
{
}

/// The guard that a granted attempt hands out unlocks the lock's own entry,
/// which it took by writing the lock's own deadline.
pub proof fn lemma_guard_holds_own_deadline<L: Lockable>(
    write: LockWrite,
    key: Seq<u8>,
    stored: Option<Seq<u8>>,
    deadline: L,
    guard: StorageLockGuard,
)
    requires
        writes_deadline(write, key, stored, deadline),
        guard.pending_unlock() == Some(write.key@),
        guard.granted() == write.new@,
    ensures
        guard.pending_unlock() == Some(key),
        L::spec_decoding(guard.granted()) == Some(deadline),
{
    L::lemma_decode_encode(deadline);
}

/// A block-and-time lock whose stored block deadline has been passed by the
/// current block number is granted again, whatever the times.
pub proof fn lemma_passed_block_regranted_u32(now: BlockAndTime<u32>, held: BlockAndTime<u32>, own: BlockAndTime<u32>)
    requires
        now.block_number > held.block_number,
    ensures
        lock_decision(now, Some(held.spec_encoding()), own) == Ok::<BlockAndTime<u32>, Option<BlockAndTime<u32>>>(own),
{
    crate::lockable::lemma_block_and_time_expired_u32(now, held);
    lemma_expired_lock_retaken(held, now, own);
}

/// A block-and-time lock whose stored block deadline has been passed by the
/// current block number is granted again, whatever the times.
pub proof fn lemma_passed_block_regranted_u64(now: BlockAndTime<u64>, held: BlockAndTime<u64>, own: BlockAndTime<u64>)
    requires
        now.block_number > held.block_number,
    ensures
        lock_decision(now, Some(held.spec_encoding()), own) == Ok::<BlockAndTime<u64>, Option<BlockAndTime<u64>>>(own),
{
    crate::lockable::lemma_block_and_time_expired_u64(now, held);
    lemma_expired_lock_retaken(held, now, own);
}

/// A spinning block-and-time lock gives up once the current block number is
/// past its own block deadline, whatever the times.
pub proof fn lemma_spin_gives_up_past_own_block_u32(now: BlockAndTime<u32>, own: BlockAndTime<u32>)
    requires
        now.block_number > own.block_number,
    ensures
        BlockAndTime::<u32>::spec_expired(now, own),
{
    crate::lockable::lemma_block_and_time_expired_u32(now, own);
}

/// A spinning block-and-time lock gives up once the current block number is
/// past its own block deadline, whatever the times.
pub proof fn lemma_spin_gives_up_past_own_block_u64(now: BlockAndTime<u64>, own: BlockAndTime<u64>)
    requires
        now.block_number > own.block_number,
    ensures
        BlockAndTime::<u64>::spec_expired(now, own),
{
    crate::lockable::lemma_block_and_time_expired_u64(now, own);
}

/// A spinning timestamp lock whose own deadline has not passed sleeps at most
/// 100 ms per turn, and never past the holder's deadline.
pub proof fn lemma_timestamp_spin_step(now: Timestamp, own: Timestamp, holder: Timestamp)
    requires
        now@ <= own@,
        now@ <= holder@,
    ensures
        !Timestamp::spec_expired(now, own),
        now@ <= Timestamp::spec_snooze(now, spin_deadline(Some(holder), now))@,
        Timestamp::spec_snooze(now, spin_deadline(Some(holder), now))@ <= now@ + 100,
        Timestamp::spec_snooze(now, spin_deadline(Some(holder), now))@ <= holder@,
{
    crate::lockable::lemma_timestamp_snooze(now, holder);
}

/// An entry whose bytes are no deadline refuses the attempt, reporting no deadline.
pub proof fn lemma_unreadable_entry_refused<L: Lockable>(bytes: Seq<u8>, now: L, new_deadline: L)
    requires
        L::spec_decoding(bytes) is None,
    ensures
        lock_decision(now, Some(bytes), new_deadline) == Err::<L, Option<L>>(None),
{
}

/// An attempt that reads bytes holding a deadline `d`, which have not passed,
/// is refused with `d`; one whose `d` has passed is granted: the decision turns
/// on nothing but the deadline read and the current reading.
pub proof fn lemma_decision_reads_deadline<L: Lockable>(bytes: Seq<u8>, d: L, now: L, new_deadline: L)
    requires
        L::spec_decoding(bytes) == Some(d),
    ensures
        L::spec_expired(now, d) ==> lock_decision(now, Some(bytes), new_deadline) == Ok::<L, Option<L>>(new_deadline),
        !L::spec_expired(now, d) ==> lock_decision(now, Some(bytes), new_deadline) == Err::<L, Option<L>>(Some(d)),
{
}

} // verus!
