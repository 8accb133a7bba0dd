//! What a receipt reads from a signed transaction.
use vstd::prelude::*;

use crate::external::{calc_effective_gas_price, recover_signer, recovered_signer};
use crate::types::{Address, TransactionSigned, TxKind, TxType, DATA_GAS_PER_BLOB};

verus! {

/// The price per gas that a dynamic-fee transaction pays under `base_fee` (EIP-1559):
/// `max_fee` without a base fee; otherwise the base fee plus the priority fee, capped
/// at `max_fee`.
pub open spec fn effective_price_of(max_fee: u128, max_priority_fee: u128, base_fee: Option<u64>) -> u128 {
    match base_fee {
        None => max_fee,
        Some(base) => {
            let tip: int = if max_fee > base { max_fee - base } else { 0 };
            if tip > max_priority_fee {
                (max_priority_fee + base) as u128
            } else {
                max_fee
            }
        },
    }
}

impl TransactionSigned {
    /// Whether the transaction prices gas by EIP-1559 fee caps.
    pub open spec fn is_dynamic_fee(&self) -> bool {
        !(self.tx_type is Legacy || self.tx_type is Eip2930)
    }

    /// Blob gas the transaction consumes: `DATA_GAS_PER_BLOB` per blob for EIP-4844,
    /// none for the other types.
    pub open spec fn spec_blob_gas_used(&self) -> Option<u64> {
        if self.tx_type is Eip4844 {
            Some((self.blob_versioned_hashes@.len() * DATA_GAS_PER_BLOB) as u64)
        } else {
            None
        }
    }

    /// Whether the blob gas of a blob transaction fits in a `u64`.
    pub open spec fn blob_gas_fits(&self) -> bool {
        self.tx_type is Eip4844 ==> self.blob_versioned_hashes@.len() * DATA_GAS_PER_BLOB <= u64::MAX
    }

    /// The price per gas the transaction pays in a block with `base_fee`.
    pub open spec fn spec_effective_gas_price(&self, base_fee: Option<u64>) -> u128 {
        if self.is_dynamic_fee() {
            effective_price_of(self.gas_price, self.max_priority_fee_per_gas, base_fee)
        } else {
            self.gas_price
        }
    }

    /// The signer that the signature yields over the signing hash, if any.
    pub open spec fn spec_signer(&self) -> Option<Address> {
        recovered_signer(self.signature.r, self.signature.s, self.signature.y_parity, self.signature_hash)
    }

    /// Whether the transaction creates a contract or calls an address.
    pub fn kind(&self) -> (res: TxKind)
        ensures
            res == self.kind,
    {
        self.kind
    }

    /// The sender's nonce.
    pub fn nonce(&self) -> (res: u64)
        ensures
            res == self.nonce,
    {
        self.nonce
    }

    /// Blob gas the transaction consumes (EIP-4844 only).
    pub fn blob_gas_used(&self) -> (res: Option<u64>)
        requires
            self.blob_gas_fits(),
        ensures
            res == self.spec_blob_gas_used(),
    {
        match self.tx_type {
            TxType::Eip4844 => {
                let blobs = self.blob_versioned_hashes.len() as u64;
                Some(blobs * DATA_GAS_PER_BLOB)
            },
            _ => None,
        }
    }

    /// The price per gas the transaction pays in a block with `base_fee`.
    pub fn effective_gas_price(&self, base_fee: Option<u64>) -> (res: u128)
        ensures
            res == self.spec_effective_gas_price(base_fee),
    {
        match self.tx_type {
            TxType::Legacy | TxType::Eip2930 => self.gas_price,
            _ => calc_effective_gas_price(self.gas_price, self.max_priority_fee_per_gas, base_fee),
        }
    }

    /// Recovers the sender from the signature and the signing hash, without
    /// checking that `s` is in the lower half of the curve order.
    pub fn recover_signer_unchecked(&self) -> (res: Result<Address, alloy_consensus::crypto::RecoveryError>)
        ensures
            res is Ok <==> self.spec_signer() is Some,
            res matches Ok(a) ==> self.spec_signer() == Some(a),
    {
        recover_signer(&self.signature.r, &self.signature.s, self.signature.y_parity, &self.signature_hash)
    }
}

} // verus!
