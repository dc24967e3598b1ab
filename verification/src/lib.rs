//! A lock kept in the off-chain worker's persistent local storage, with a
//! deadline after which a held lock may be taken over, and the node's service
//! configuration helpers.
//!
//! The lock's decisions are verified here; reading the clock, reading and
//! writing the local storage and sleeping are left to the driver, which hands
//! the library what it read and performs what the library asks for.

pub mod config;
pub mod scale;
pub mod time;
pub mod lockable;
pub mod storage_lock;
