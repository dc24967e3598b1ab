//! SCALE encoding of the fixed-width integers and timestamps that the lock
//! stores, through `parity-scale-codec` and `sp-core`.

use parity_scale_codec::{Decode, Encode};
use vstd::prelude::*;

verus! {

/// The `n` bytes of `v` in little-endian order (`v` taken modulo `256^n`).
pub open spec fn le_bytes(v: nat, n: nat) -> Seq<u8>
    decreases n,
{
    if n == 0 {
        Seq::empty()
    } else {
        seq![(v % 256) as u8] + le_bytes(v / 256, (n - 1) as nat)
    }
}

/// The number whose little-endian bytes are `s`.
pub open spec fn le_value(s: Seq<u8>) -> nat
    decreases s.len(),
{
    if s.len() == 0 {
        0
    } else {
        s[0] as nat + 256 * le_value(s.drop_first())
    }
}

/// `256^n`.
pub open spec fn byte_power(n: nat) -> nat
    decreases n,
{
    if n == 0 {
        1
    } else {
        256 * byte_power((n - 1) as nat)
    }
}

/// What a fixed-width decoder of `n` bytes reads from the front of `bytes`:
/// nothing when fewer than `n` bytes are there.
pub open spec fn le_prefix(bytes: Seq<u8>, n: nat) -> Option<nat> {
    if bytes.len() >= n {
        Some(le_value(bytes.take(n as int)))
    } else {
        None
    }
}

pub proof fn lemma_le_bytes_len(v: nat, n: nat)
    ensures
        le_bytes(v, n).len() == n,
    decreases n,
{
    if n > 0 {
        lemma_le_bytes_len(v / 256, (n - 1) as nat);
    }
}

/// The number read from `n` bytes is below `256^n`.
pub proof fn lemma_le_value_fits(s: Seq<u8>)
    ensures
        le_value(s) < byte_power(s.len()),
    decreases s.len(),
{
    if s.len() > 0 {
        lemma_le_value_fits(s.drop_first());
    }
}

/// Reading back `n` little-endian bytes gives the number written, when it fits.
pub proof fn lemma_le_roundtrip(v: nat, n: nat)
    requires
        v < byte_power(n),
    ensures
        le_value(le_bytes(v, n)) == v,
        le_bytes(v, n).len() == n,
    decreases n,
{
    lemma_le_bytes_len(v, n);
    if n > 0 {
        let rest = le_bytes(v / 256, (n - 1) as nat);
        assert(v / 256 < byte_power((n - 1) as nat)) by (nonlinear_arith)
            requires
                v < 256 * byte_power((n - 1) as nat),
        ;
        lemma_le_roundtrip(v / 256, (n - 1) as nat);
        assert(le_bytes(v, n).drop_first() =~= rest);
        assert(v == v % 256 + 256 * (v / 256)) by (nonlinear_arith);
    }
}

/// A fixed-width read of the bytes written, followed by anything, gives the number back.
pub proof fn lemma_le_prefix_roundtrip(v: nat, n: nat, rest: Seq<u8>)
    requires
        v < byte_power(n),
    ensures
        le_prefix(le_bytes(v, n) + rest, n) == Some(v),
{
    lemma_le_roundtrip(v, n);
    assert((le_bytes(v, n) + rest).take(n as int) =~= le_bytes(v, n));
}

pub proof fn lemma_byte_powers()
    ensures
        byte_power(4) == 0x1_0000_0000,
        byte_power(8) == 0x1_0000_0000_0000_0000,
{
    reveal_with_fuel(byte_power, 9);
}

/// The SCALE encoding of a `u64`: eight little-endian bytes.
pub open spec fn u64_encoding(v: u64) -> Seq<u8> {
    le_bytes(v as nat, 8)
}

/// The SCALE encoding of a `u32`: four little-endian bytes.
pub open spec fn u32_encoding(v: u32) -> Seq<u8> {
    le_bytes(v as nat, 4)
}

/// What decoding a `u64` reads from the front of `bytes`.
pub open spec fn u64_decoding(bytes: Seq<u8>) -> Option<u64> {
    match le_prefix(bytes, 8) {
        Some(v) => Some(v as u64),
        None => None,
    }
}

/// What decoding a `u32` reads from the front of `bytes`.
pub open spec fn u32_decoding(bytes: Seq<u8>) -> Option<u32> {
    match le_prefix(bytes, 4) {
        Some(v) => Some(v as u32),
        None => None,
    }
}

/// `<u64 as Encode>::encode` from parity-scale-codec: the value's eight bytes,
/// least significant first.
#[verifier::external_body]
pub(crate) fn encode_u64(v: u64) -> (r: Vec<u8>)
    ensures
        r@ == u64_encoding(v),
{
    v.encode()
}

/// `<u64 as Decode>::decode` from parity-scale-codec on a byte slice: the first
/// eight bytes read little-endian; an error when fewer than eight are there.
/// Bytes after the eighth are left unread.
#[verifier::external_body]
pub(crate) fn decode_u64(bytes: &[u8]) -> (r: Option<u64>)
    ensures
        r == u64_decoding(bytes@),
{
    match u64::decode(&mut &bytes[..]) {
        Ok(v) => Some(v),
        Err(_) => None,
    }
}

/// `<u32 as Encode>::encode` from parity-scale-codec: the value's four bytes,
/// least significant first.
#[verifier::external_body]
pub(crate) fn encode_u32(v: u32) -> (r: Vec<u8>)
    ensures
        r@ == u32_encoding(v),
{
    v.encode()
}

/// `<u32 as Decode>::decode` from parity-scale-codec on a byte slice: the first
/// four bytes read little-endian; an error when fewer than four are there.
#[verifier::external_body]
pub(crate) fn decode_u32(bytes: &[u8]) -> (r: Option<u32>)
    ensures
        r == u32_decoding(bytes@),
{
    match u32::decode(&mut &bytes[..]) {
        Ok(v) => Some(v),
        Err(_) => None,
    }
}

} // verus!
