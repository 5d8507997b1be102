//! Pseudo-random genome derivation. The host ledger hands each operation a
//! block-wide random seed and a per-block call index; those are combined
//! with the caller's account into one byte payload and hashed with a
//! 128-bit hash to give 16 pseudo-random bytes. The seed is observable
//! before submission, so the result is predictable to a determined
//! adversary; that weakness is part of the design and is kept as it is.

use vstd::prelude::*;
use vstd::bytes::{spec_u32_to_le_bytes, spec_u64_to_le_bytes, u32_to_le_bytes, u64_to_le_bytes};
use crate::types::AccountId;

verus! {

/// The 16-byte digest the host's 128-bit hash routine computes for a byte
/// string: a function of the input bytes alone, named here rather than
/// spelled out.
pub uninterp spec fn blake2_128_of(data: Seq<u8>) -> Seq<u8>;

/// Encoding of an optional 32-bit call index: one zero byte for absence,
/// else a one byte followed by the four little-endian value bytes.
pub open spec fn option_u32_bytes(x: Option<u32>) -> Seq<u8> {
    match x {
        Option::None => seq![0u8],
        Option::Some(v) => seq![1u8] + spec_u32_to_le_bytes(v),
    }
}

/// The entropy payload: the 32-byte block seed, then the caller's account
/// in little-endian bytes, then the encoded call index.
pub open spec fn payload_bytes(seed: Seq<u8>, sender: AccountId, call_index: Option<u32>) -> Seq<u8> {
    seed + spec_u64_to_le_bytes(sender) + option_u32_bytes(call_index)
}

/// The 16 pseudo-random bytes drawn for `sender` under the given block
/// context: the 128-bit hash of the payload above.
pub open spec fn random_bytes(seed: Seq<u8>, sender: AccountId, call_index: Option<u32>) -> Seq<u8> {
    blake2_128_of(payload_bytes(seed, sender, call_index))
}

/// The genome a successful breed derives: each output byte takes its bits
/// from the first parent where the selector bit is one and from the second
/// parent where it is zero.
pub open spec fn child_genome(selector: Seq<u8>, genome1: Seq<u8>, genome2: Seq<u8>) -> Seq<u8> {
    Seq::new(genome1.len(), |i: int| ((selector[i] & genome1[i]) | (!selector[i] & genome2[i])) as u8)
}

/// Relies on `sp_core_hashing::blake2_128`: the 16-byte Blake2b digest of
/// `data`, a pure function of the input bytes.
#[verifier::external_body]
fn blake2_128(data: &[u8]) -> (r: [u8; 16])
    ensures
        r@ == blake2_128_of(data@),
{
    sp_core_hashing::blake2_128(data)
}

/// Draw the 16 pseudo-random bytes for `sender` under the current block
/// seed and call index, exactly as [`random_bytes`] states them.
pub(crate) fn random_value(seed: &[u8; 32], sender: AccountId, call_index: Option<u32>) -> (r: [u8; 16])
    ensures
        r@ == random_bytes(seed@, sender, call_index),
{
    let mut payload: Vec<u8> = Vec::new();
    for i in 0..32
        invariant
            payload@ =~= seed@.subrange(0, i as int),
    {
        payload.push(seed[i]);
    }
    assert(payload@ =~= seed@);
    let mut sender_bytes = u64_to_le_bytes(sender);
    payload.append(&mut sender_bytes);
    match call_index {
        Option::Some(v) => {
            payload.push(1u8);
            let mut index_bytes = u32_to_le_bytes(v);
            payload.append(&mut index_bytes);
        },
        Option::None => {
            payload.push(0u8);
        },
    }
    assert(payload@ =~= payload_bytes(seed@, sender, call_index));
    blake2_128(payload.as_slice())
}

} // verus!
