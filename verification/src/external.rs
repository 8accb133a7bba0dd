//! The calls this library makes into alloy, each behind one trusted item.
//!
//! Every item here is believed by Verus without proof; the doc comment of each
//! says which outside function it reaches and what its contract claims.
use vstd::prelude::*;

use crate::blob::spec_blob_fee;
use crate::types::{Address, Bloom, Log};

verus! {

/// alloy's opaque error for a signature from which no signer can be recovered.
#[verifier::external_type_specification]
#[verifier::external_body]
pub struct ExRecoveryError(alloy_consensus::crypto::RecoveryError);

/// The address that secp256k1 public-key recovery yields for the signature
/// `(r, s, y_parity)` over the 32-byte message `hash`, or `None` where recovery fails.
pub uninterp spec fn recovered_signer(r: [u8; 32], s: [u8; 32], y_parity: bool, hash: [u8; 32]) -> Option<[u8; 20]>;

/// The address of the contract that `sender` deploys with a creation at `nonce`
/// (the last 20 bytes of the keccak-256 hash of the RLP list `[sender, nonce]`).
pub uninterp spec fn created_address(sender: [u8; 20], nonce: u64) -> [u8; 20];

/// The 2048-bit bloom filter of a list of logs, each given as its address,
/// its topics and its data.
pub uninterp spec fn logs_bloom_of(logs: Seq<([u8; 20], Seq<[u8; 32]>, Seq<u8>)>) -> [u8; 256];

/// Calls `alloy_consensus::crypto::secp256k1::recover_signer_unchecked` on the
/// signature `(r, s, y_parity)` (big-endian `r` and `s`) and the signing hash `hash`.
/// The contract claims that the result is `Ok` exactly when recovery succeeds and
/// that the address it holds is the recovered one; the function is deterministic
/// (the `crypto-backend` feature, which would let a process install its own
/// provider, is off), so the result is a function of the four arguments.
#[verifier::external_body]
pub(crate) fn recover_signer(r: &[u8; 32], s: &[u8; 32], y_parity: bool, hash: &[u8; 32]) -> (res:
    Result<Address, alloy_consensus::crypto::RecoveryError>)
    ensures
        res is Ok <==> recovered_signer(*r, *s, y_parity, *hash) is Some,
        res matches Ok(a) ==> recovered_signer(*r, *s, y_parity, *hash) == Some(a),
{
    let signature = alloy_primitives::Signature::new(
        alloy_primitives::U256::from_be_bytes(*r),
        alloy_primitives::U256::from_be_bytes(*s),
        y_parity,
    );
    match alloy_consensus::crypto::secp256k1::recover_signer_unchecked(&signature, (*hash).into()) {
        Ok(address) => Ok(address.into_array()),
        Err(e) => Err(e),
    }
}

/// Calls `alloy_primitives::Address::create` on `sender` with `nonce`; the contract
/// claims that the result is the named contract address of that pair.
#[verifier::external_body]
pub(crate) fn create_address(sender: &Address, nonce: u64) -> (res: Address)
    ensures
        res == created_address(*sender, nonce),
{
    alloy_primitives::Address::from(*sender).create(nonce).into_array()
}

/// Calls `alloy_primitives::logs_bloom` on the logs, converted one for one into
/// alloy's `Log`; the contract claims that the result is the named bloom of the logs.
#[verifier::external_body]
pub(crate) fn logs_bloom(logs: &[Log]) -> (res: Bloom)
    ensures
        res == logs_bloom_of(logs@.map_values(|l: Log| l@)),
{
    let converted: Vec<alloy_primitives::Log> = logs.iter().map(|l| alloy_primitives::Log::new_unchecked(
        l.address.into(),
        l.topics.iter().map(|t| alloy_primitives::B256::from(*t)).collect(),
        l.data.clone().into(),
    )).collect();
    alloy_primitives::logs_bloom(converted.iter()).into_array()
}

/// Calls `alloy_eips::eip7840::BlobParams::calc_blob_fee` with `excess_blob_gas` on the
/// parameters given field by field. Its source computes
/// `fake_exponential(min_blob_fee, excess_blob_gas, update_fraction)` and reads no other
/// field; `fake_exponential` asserts a non-zero denominator and does unchecked `u128`
/// arithmetic, which panics on overflow where overflow checks are on. The contract
/// claims that, on the inputs where `spec_blob_fee` (which follows that loop step by
/// step) is defined, the call returns its value; `requires` leaves out the others,
/// on which the call panics or, without overflow checks, wraps.
#[verifier::external_body]
pub(crate) fn calc_blob_fee(
    target_blob_count: u64,
    max_blob_count: u64,
    update_fraction: u128,
    min_blob_fee: u128,
    max_blobs_per_tx: u64,
    blob_base_cost: u64,
    excess_blob_gas: u64,
) -> (res: u128)
    requires
        spec_blob_fee(min_blob_fee, update_fraction, excess_blob_gas) is Some,
    ensures
        spec_blob_fee(min_blob_fee, update_fraction, excess_blob_gas) == Some(res),
{
    alloy_eips::eip7840::BlobParams {
        target_blob_count,
        max_blob_count,
        update_fraction,
        min_blob_fee,
        max_blobs_per_tx,
        blob_base_cost,
    }.calc_blob_fee(excess_blob_gas)
}

/// Calls `alloy_eips::eip1559::calc_effective_gas_price`. As its source and
/// documentation show: without a base fee the result is `max_fee_per_gas`; with one it
/// is `max_priority_fee_per_gas + base_fee` where `max_fee_per_gas - base_fee`
/// (saturating at zero) exceeds `max_priority_fee_per_gas`, and `max_fee_per_gas`
/// otherwise.
#[verifier::external_body]
pub(crate) fn calc_effective_gas_price(
    max_fee_per_gas: u128,
    max_priority_fee_per_gas: u128,
    base_fee: Option<u64>,
) -> (res: u128)
    ensures
        res == crate::transaction::effective_price_of(max_fee_per_gas, max_priority_fee_per_gas, base_fee),
{
    alloy_eips::eip1559::calc_effective_gas_price(max_fee_per_gas, max_priority_fee_per_gas, base_fee)
}

} // verus!
