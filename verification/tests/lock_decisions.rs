use parity_scale_codec::Encode;
use storage_lock::lockable::{BlockAndTime, BlockNumberTrait, Lockable};
use storage_lock::storage_lock::{BlockAndTimeLock, StorageLock, TimeLock};
use storage_lock::time::{
    Timestamp, STORAGE_LOCK_DEFAULT_EXPIRY_DURATION_MS, STORAGE_LOCK_PER_CHECK_ITERATION_SNOOZE,
};

fn ts(millis: u64) -> Timestamp {
    Timestamp::from_unix_millis(millis)
}

#[test]
fn constants_are_the_documented_durations() {
    assert_eq!(STORAGE_LOCK_DEFAULT_EXPIRY_DURATION_MS, 30_000);
    assert_eq!(STORAGE_LOCK_PER_CHECK_ITERATION_SNOOZE, 100);
}

#[test]
fn timestamp_arithmetic_saturates() {
    assert_eq!(ts(5).add_millis(10).unix_millis(), 15);
    assert_eq!(ts(u64::MAX - 1).add_millis(10).unix_millis(), u64::MAX);
    assert_eq!(ts(5).diff_millis(&ts(3)), 2);
    assert_eq!(ts(3).diff_millis(&ts(5)), 0);
}

#[test]
fn timestamp_encoding_matches_sp_core() {
    let t = ts(0x0102_0304_0506_0708);
    assert_eq!(t.encode(), vec![8, 7, 6, 5, 4, 3, 2, 1]);
    assert_eq!(
        Lockable::encode(&t),
        sp_core::offchain::Timestamp::from_unix_millis(0x0102_0304_0506_0708).encode()
    );
}

#[test]
fn timestamp_decoding_reads_eight_bytes() {
    assert_eq!(Timestamp::decode(&[8, 7, 6, 5, 4, 3, 2, 1]).map(|t| t.unix_millis()), Some(0x0102_0304_0506_0708));
    assert_eq!(Timestamp::decode(&[1, 0, 0, 0, 0, 0, 0, 0, 9, 9]).map(|t| t.unix_millis()), Some(1));
    assert_eq!(Timestamp::decode(&[1, 2, 3]), None);
    assert_eq!(Timestamp::decode(&[]), None);
}

#[test]
fn timestamp_lockable_rules() {
    // a default deadline lies 30 s ahead
    assert_eq!(<Timestamp as Lockable>::deadline(&ts(1_000)).unix_millis(), 31_000);
    assert_eq!(<Timestamp as Lockable>::deadline(&ts(u64::MAX - 5)).unix_millis(), u64::MAX);
    // a deadline has passed only once the clock is strictly beyond it
    assert!(!ts(31_000).expired(&ts(31_000)));
    assert!(ts(31_001).expired(&ts(31_000)));
    assert!(!ts(1_000).expired(&ts(31_000)));
    // snoozing: the time remaining until the deadline, capped at 100 ms
    assert_eq!(ts(1_000).snooze(&ts(31_000)).unix_millis(), 1_100);
    assert_eq!(ts(30_950).snooze(&ts(31_000)).unix_millis(), 31_000);
    assert_eq!(ts(31_000).snooze(&ts(31_000)).unix_millis(), 31_000);
    assert_eq!(ts(31_050).snooze(&ts(31_000)).unix_millis(), 31_050);
    assert_eq!(ts(u64::MAX - 10).snooze(&ts(u64::MAX)).unix_millis(), u64::MAX);
}

#[test]
fn timestamp_roundtrips_through_storage() {
    for millis in [0u64, 1, 255, 256, 30_000, u64::MAX] {
        let t = ts(millis);
        assert_eq!(<Timestamp as Lockable>::decode(&Lockable::encode(&t)), Some(t));
    }
}

#[test]
fn block_numbers_encode_and_order() {
    assert_eq!(7u32.encode_number(), vec![7, 0, 0, 0]);
    assert_eq!(7u64.encode_number(), vec![7, 0, 0, 0, 0, 0, 0, 0]);
    assert_eq!(<u32 as BlockNumberTrait>::decode_number(&[7, 0, 0, 0, 1]), Some((7u32, 4)));
    assert_eq!(<u32 as BlockNumberTrait>::decode_number(&[7, 0, 0]), None);
    assert_eq!(<u64 as BlockNumberTrait>::decode_number(&[1, 1, 0, 0, 0, 0, 0, 0]), Some((257u64, 8)));
    assert!(5u32.is_after(&4));
    assert!(!4u32.is_after(&4));
    assert!(!3u64.is_after(&4));
}

#[test]
fn block_and_time_lockable_rules() {
    let deadline = BlockAndTime { block_number: 10u32, timestamp: ts(5_000) };
    let early = BlockAndTime { block_number: 10u32, timestamp: ts(5_000) };
    let later_block = BlockAndTime { block_number: 11u32, timestamp: ts(1_000) };
    let later_time = BlockAndTime { block_number: 3u32, timestamp: ts(5_001) };
    assert!(!early.expired(&deadline));
    assert!(later_block.expired(&deadline));
    assert!(later_time.expired(&deadline));
    // the default deadline is the current reading itself
    let d = <BlockAndTime<u32> as Lockable>::deadline(&early);
    assert_eq!((d.block_number, d.timestamp), (10, ts(5_000)));
    // snoozing goes by the timestamps
    assert_eq!(later_time.snooze(&deadline).unix_millis(), 5_001);
    assert_eq!(later_block.snooze(&deadline).unix_millis(), 1_100);
}

#[test]
fn block_and_time_encoding() {
    let v = BlockAndTime { block_number: 0x0102u32, timestamp: ts(3) };
    let bytes = Lockable::encode(&v);
    assert_eq!(bytes, vec![2, 1, 0, 0, 3, 0, 0, 0, 0, 0, 0, 0]);
    let back = <BlockAndTime<u32> as Lockable>::decode(&bytes).unwrap();
    assert_eq!((back.block_number, back.timestamp), (0x0102, ts(3)));
    assert!(<BlockAndTime<u32> as Lockable>::decode(&bytes[..11]).is_none());
    assert!(<BlockAndTime<u64> as Lockable>::decode(&bytes[..7]).is_none());
    let w = BlockAndTime { block_number: 9u64, timestamp: ts(u64::MAX) };
    let back = <BlockAndTime<u64> as Lockable>::decode(&Lockable::encode(&w)).unwrap();
    assert_eq!((back.block_number, back.timestamp), (9, ts(u64::MAX)));
}

#[test]
fn try_lock_on_a_free_entry_writes_the_deadline() {
    let lock = StorageLock::<Timestamp>::new(b"lock", &ts(1_000));
    assert_eq!(lock.key(), b"lock");
    assert_eq!(lock.deadline(), ts(31_000));
    let write = lock.try_lock(&ts(2_000), None).ok().unwrap();
    assert_eq!(write.key, b"lock".to_vec());
    assert_eq!(write.expected, None);
    assert_eq!(write.new, 31_000u64.to_le_bytes().to_vec());
}

#[test]
fn try_lock_on_a_held_entry_reports_its_deadline() {
    let lock = StorageLock::<Timestamp>::new(b"lock", &ts(1_000));
    let held = 40_000u64.to_le_bytes().to_vec();
    match lock.try_lock(&ts(39_999), Some(held.clone())) {
        Err(Some(d)) => assert_eq!(d, ts(40_000)),
        _ => panic!("the entry is held until 40 000"),
    }
    match lock.try_lock(&ts(40_000), Some(held)) {
        Err(Some(d)) => assert_eq!(d, ts(40_000)),
        _ => panic!("the entry is held until 40 000"),
    }
}

#[test]
fn try_lock_takes_over_an_expired_entry() {
    let lock = StorageLock::<Timestamp>::new(b"lock", &ts(1_000));
    let old = 500u64.to_le_bytes().to_vec();
    let write = lock.try_lock(&ts(2_000), Some(old.clone())).ok().unwrap();
    assert_eq!(write.expected, Some(old));
    assert_eq!(write.new, 31_000u64.to_le_bytes().to_vec());
}

#[test]
fn try_lock_on_an_unreadable_entry_fails_with_none() {
    let lock = StorageLock::<Timestamp>::new(b"lock", &ts(1_000));
    assert!(matches!(lock.try_lock(&ts(2_000), Some(vec![1, 2, 3])), Err(None)));
}

#[test]
fn lock_outcome_follows_the_write() {
    let lock = StorageLock::<Timestamp>::new(b"lock", &ts(0));
    let write = lock.try_lock(&ts(0), None).ok().unwrap();
    let mut guard = lock.lock_outcome(write, true).ok().unwrap();
    assert_eq!(guard.release(), Some(b"lock".to_vec()));
    // a guard unlocks once
    assert_eq!(guard.release(), None);
    let write = lock.try_lock(&ts(0), None).ok().unwrap();
    assert!(matches!(lock.lock_outcome(write, false), Err(None)));
}

#[test]
fn forgotten_guard_does_not_unlock() {
    let lock = StorageLock::<Timestamp>::new(b"lock", &ts(0));
    let write = lock.try_lock(&ts(0), None).ok().unwrap();
    let mut guard = lock.lock_outcome(write, true).ok().unwrap();
    guard.forget();
    assert_eq!(guard.release(), None);
}

#[test]
fn spin_lock_snoozes_on_the_holders_deadline() {
    // the spinning lock's own deadline is 50 000
    let lock = StorageLock::<Timestamp>::new(b"lock", &ts(20_000));
    // held until 40 000: sleep the time remaining, at most 100 ms
    assert_eq!(lock.spin_lock(Some(ts(40_000)), &ts(39_000)).ok().unwrap().unix_millis(), 39_100);
    assert_eq!(lock.spin_lock(Some(ts(40_000)), &ts(39_950)).ok().unwrap().unix_millis(), 40_000);
    // at or past the holder's deadline: no sleep
    assert_eq!(lock.spin_lock(Some(ts(40_000)), &ts(40_030)).ok().unwrap().unix_millis(), 40_030);
    // no deadline found: snooze on a fresh default deadline, which lies ahead
    assert_eq!(lock.spin_lock(None, &ts(39_000)).ok().unwrap().unix_millis(), 39_100);
}

#[test]
fn spin_lock_gives_up_once_its_own_deadline_has_passed() {
    let lock = StorageLock::<Timestamp>::new(b"lock", &ts(20_000));
    assert!(!lock.expired_at(&ts(50_000)));
    assert!(lock.expired_at(&ts(50_001)));
    assert!(lock.spin_lock(Some(ts(60_000)), &ts(50_000)).is_ok());
    assert!(matches!(lock.spin_lock(Some(ts(60_000)), &ts(50_001)), Err(Some(d)) if d == ts(60_000)));
    assert!(matches!(lock.spin_lock(None, &ts(50_001)), Err(None)));
}

#[test]
fn default_snooze_waits_the_per_iteration_snooze() {
    assert_eq!(storage_lock::lockable::default_snooze(&ts(7)).unix_millis(), 107);
    assert_eq!(storage_lock::lockable::default_snooze(&ts(u64::MAX - 1)).unix_millis(), u64::MAX);
}

#[test]
fn unlock_clears_the_lock_entry() {
    let lock = StorageLock::<Timestamp>::new(b"x::lock", &ts(0));
    assert_eq!(lock.unlock(), b"x::lock".to_vec());
}

#[test]
fn explicit_deadlines() {
    let lock = <StorageLock<Timestamp> as TimeLock>::with_deadline(b"a", ts(77));
    assert_eq!(lock.key(), b"a");
    assert_eq!(lock.deadline(), ts(77));
    let write = lock.try_lock(&ts(0), None).ok().unwrap();
    assert_eq!(write.new, 77u64.to_le_bytes().to_vec());

    let lock = <StorageLock<BlockAndTime<u64>> as BlockAndTimeLock<u64>>::with_block_and_time_deadline(
        b"b",
        12,
        ts(34),
    );
    assert_eq!(lock.key(), b"b");
    let d = lock.deadline();
    assert_eq!((d.block_number, d.timestamp), (12, ts(34)));
    let write = lock.try_lock(&BlockAndTime { block_number: 0, timestamp: ts(0) }, None).ok().unwrap();
    let mut expected = 12u64.to_le_bytes().to_vec();
    expected.extend_from_slice(&34u64.to_le_bytes());
    assert_eq!(write.new, expected);
}

#[test]
fn taken_lock_excludes_others_until_expiry() {
    let first = StorageLock::<Timestamp>::new(b"shared", &ts(0));
    let second = StorageLock::<Timestamp>::new(b"shared", &ts(10));
    let write = first.try_lock(&ts(0), None).ok().unwrap();
    // the write went through: the entry holds the first lock's deadline
    let entry = Some(write.new.clone());
    assert!(matches!(second.try_lock(&ts(30_000), entry.clone()), Err(Some(d)) if d == ts(30_000)));
    let retake = second.try_lock(&ts(30_001), entry.clone()).ok().unwrap();
    assert_eq!(retake.expected, entry);
    assert_eq!(retake.new, 30_010u64.to_le_bytes().to_vec());
    // once unlocked, the entry is free
    assert!(second.try_lock(&ts(5), None).is_ok());
}

#[test]
fn block_and_time_lock_is_refused_in_the_same_block_and_time() {
    let now = BlockAndTime { block_number: 4u32, timestamp: ts(100) };
    let first = StorageLock::<BlockAndTime<u32>>::new(b"k", &now);
    let second = StorageLock::<BlockAndTime<u32>>::new(b"k", &now);
    let write = first.try_lock(&now, None).ok().unwrap();
    match second.try_lock(&now, Some(write.new.clone())) {
        Err(Some(d)) => assert_eq!((d.block_number, d.timestamp), (4, ts(100))),
        _ => panic!("held"),
    }
    let next_block = BlockAndTime { block_number: 5u32, timestamp: ts(100) };
    assert!(second.try_lock(&next_block, Some(write.new)).is_ok());
}
