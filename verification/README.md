# storage_lock

A lock kept in an off-chain worker's persistent local storage, with a deadline
after which a held lock may be taken over, verified with Verus.

- `src/scale.rs`: the SCALE encoding of fixed-width integers, through `parity-scale-codec`.
- `src/time.rs`: timestamps and their saturating arithmetic, through `sp-core`.
- `src/lockable.rs`: what a lock's deadline can be (`Timestamp`, `BlockAndTime<B>`), when it
  has expired, how long to snooze, and how it is stored.
- `src/storage_lock.rs`: the lock's decisions — whether an attempt may write its deadline,
  what a failed attempt sleeps until, when a spinning lock gives up, what unlocking clears — and the laws they obey.
- `src/config.rs`: the keystore and database configuration and the node role display.
- `app/`: the driver that reads the clock and storage, performs the writes, clears and sleeps
  through `sp-io`, and gives guards their unlocking `Drop`.
