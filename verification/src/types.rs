//! The values a receipt is built from and the RPC receipt it becomes.
use vstd::prelude::*;

verus! {

/// A 20-byte account address.
pub type Address = [u8; 20];

/// A 32-byte hash.
pub type B256 = [u8; 32];

/// A 2048-bit log bloom filter.
pub type Bloom = [u8; 256];

/// Gas that one blob of an EIP-4844 transaction consumes.
pub const DATA_GAS_PER_BLOB: u64 = 131072;

/// The typed-transaction kinds of Ethereum.
#[derive(Clone, Copy, Debug, PartialEq, Eq, Structural)]
pub enum TxType {
    /// Pre-EIP-2718 transaction.
    Legacy,
    /// EIP-2930 access-list transaction.
    Eip2930,
    /// EIP-1559 dynamic-fee transaction.
    Eip1559,
    /// EIP-4844 blob transaction.
    Eip4844,
    /// EIP-7702 set-code transaction.
    Eip7702,
}

/// Whether a transaction creates a contract or calls an address.
#[derive(Clone, Copy, Debug, PartialEq, Eq)]
pub enum TxKind {
    /// Contract creation.
    Create,
    /// Message call to the address.
    Call(Address),
}

/// A log emitted during execution.
#[derive(Debug)]
pub struct Log {
    /// The emitting contract.
    pub address: Address,
    /// The indexed topics.
    pub topics: Vec<B256>,
    /// The unindexed data.
    pub data: Vec<u8>,
}

impl View for Log {
    type V = ([u8; 20], Seq<[u8; 32]>, Seq<u8>);

    open spec fn view(&self) -> Self::V {
        (self.address, self.topics@, self.data@)
    }
}

/// An execution receipt as a node stores it.
#[derive(Debug)]
pub struct Receipt {
    /// Type of the transaction this receipt belongs to.
    pub tx_type: TxType,
    /// Whether the transaction succeeded.
    pub success: bool,
    /// Gas used by this and all earlier transactions of the block.
    pub cumulative_gas_used: u64,
    /// Logs the transaction emitted.
    pub logs: Vec<Log>,
}

/// Where a transaction sits: its hash, its block and its position in the block.
#[derive(Clone, Copy, Debug, PartialEq, Eq)]
pub struct TransactionMeta {
    /// Hash of the transaction.
    pub tx_hash: B256,
    /// Index of the transaction in the block.
    pub index: u64,
    /// Hash of the block.
    pub block_hash: B256,
    /// Number of the block.
    pub block_number: u64,
    /// Base fee of the block.
    pub base_fee: Option<u64>,
    /// Excess blob gas of the block.
    pub excess_blob_gas: Option<u64>,
    /// Timestamp of the block.
    pub timestamp: u64,
}

/// Blob gas parameters of a fork (EIP-7840).
#[derive(Clone, Copy, Debug, PartialEq, Eq, Structural)]
pub struct BlobParams {
    /// Target blob count for the block.
    pub target_blob_count: u64,
    /// Max blob count for the block.
    pub max_blob_count: u64,
    /// Update fraction for the excess blob gas calculation.
    pub update_fraction: u128,
    /// Minimum gas price of a blob.
    pub min_blob_fee: u128,
    /// Maximum number of blobs per transaction.
    pub max_blobs_per_tx: u64,
    /// Minimum execution gas required to include a blob in a block.
    pub blob_base_cost: u64,
}

/// A secp256k1 signature: `r` and `s` big-endian, and the parity of the `y` coordinate.
#[derive(Clone, Copy, Debug, PartialEq, Eq)]
pub struct Signature {
    /// The `r` value.
    pub r: B256,
    /// The `s` value.
    pub s: B256,
    /// The parity of the `y` coordinate of the curve point.
    pub y_parity: bool,
}

/// A signed Ethereum transaction, as far as a receipt reads it.
#[derive(Debug)]
pub struct TransactionSigned {
    /// The transaction's type.
    pub tx_type: TxType,
    /// The sender's nonce.
    pub nonce: u64,
    /// Creation, or call of an address.
    pub kind: TxKind,
    /// `gas_price` of legacy and EIP-2930 transactions, `max_fee_per_gas` of the others.
    pub gas_price: u128,
    /// `max_priority_fee_per_gas` of dynamic-fee transactions; unused by the others.
    pub max_priority_fee_per_gas: u128,
    /// Versioned hashes of the blobs of an EIP-4844 transaction; unused by the others.
    pub blob_versioned_hashes: Vec<B256>,
    /// The sender's signature.
    pub signature: Signature,
    /// The hash that the signature signs (the transaction's signing hash).
    pub signature_hash: B256,
}

/// Errors of building an RPC receipt.
#[derive(Clone, Copy, Debug, PartialEq, Eq)]
pub enum EthApiError {
    /// The transaction's signer could not be recovered from its signature.
    InvalidTransactionSignature,
    /// The receipts of the block with this hash were not found.
    HeaderNotFound(B256),
}

/// Result of the RPC receipt builders.
pub type EthResult<T> = Result<T, EthApiError>;

/// A log as the RPC answers it: the log and where it stands in the chain.
#[derive(Debug)]
pub struct RpcLog {
    /// The log itself.
    pub inner: Log,
    /// Hash of the block.
    pub block_hash: Option<B256>,
    /// Number of the block.
    pub block_number: Option<u64>,
    /// Timestamp of the block.
    pub block_timestamp: Option<u64>,
    /// Hash of the transaction.
    pub transaction_hash: Option<B256>,
    /// Index of the transaction in the block.
    pub transaction_index: Option<u64>,
    /// Index of the log in the block.
    pub log_index: Option<u64>,
    /// Whether a reorganisation removed the log.
    pub removed: bool,
}

/// The value of an [`RpcLog`]: the log's value and where it stands.
pub struct RpcLogView {
    /// The log's address, topics and data.
    pub inner: ([u8; 20], Seq<[u8; 32]>, Seq<u8>),
    /// Hash of the block.
    pub block_hash: Option<B256>,
    /// Number of the block.
    pub block_number: Option<u64>,
    /// Timestamp of the block.
    pub block_timestamp: Option<u64>,
    /// Hash of the transaction.
    pub transaction_hash: Option<B256>,
    /// Index of the transaction in the block.
    pub transaction_index: Option<u64>,
    /// Index of the log in the block.
    pub log_index: Option<u64>,
    /// Whether a reorganisation removed the log.
    pub removed: bool,
}

impl View for RpcLog {
    type V = RpcLogView;

    open spec fn view(&self) -> RpcLogView {
        RpcLogView {
            inner: self.inner@,
            block_hash: self.block_hash,
            block_number: self.block_number,
            block_timestamp: self.block_timestamp,
            transaction_hash: self.transaction_hash,
            transaction_index: self.transaction_index,
            log_index: self.log_index,
            removed: self.removed,
        }
    }
}

/// The consensus part of an RPC receipt.
#[derive(Debug)]
pub struct RpcReceipt {
    /// EIP-658 status: whether the transaction succeeded.
    pub status: bool,
    /// Gas used by this and all earlier transactions of the block.
    pub cumulative_gas_used: u64,
    /// The logs, with their place in the chain.
    pub logs: Vec<RpcLog>,
}

/// The value of an [`RpcReceipt`].
pub struct RpcReceiptView {
    /// EIP-658 status.
    pub status: bool,
    /// Gas used by this and all earlier transactions of the block.
    pub cumulative_gas_used: u64,
    /// The logs' values.
    pub logs: Seq<RpcLogView>,
}

impl View for RpcReceipt {
    type V = RpcReceiptView;

    open spec fn view(&self) -> RpcReceiptView {
        RpcReceiptView {
            status: self.status,
            cumulative_gas_used: self.cumulative_gas_used,
            logs: self.logs@.map_values(|l: RpcLog| l@),
        }
    }
}

/// A receipt with its logs bloom.
#[derive(Debug)]
pub struct ReceiptWithBloom {
    /// The receipt.
    pub receipt: RpcReceipt,
    /// The bloom of its logs.
    pub logs_bloom: Bloom,
}

/// The value of a [`ReceiptWithBloom`].
pub struct ReceiptWithBloomView {
    /// The receipt's value.
    pub receipt: RpcReceiptView,
    /// The bloom of its logs.
    pub logs_bloom: Bloom,
}

impl View for ReceiptWithBloom {
    type V = ReceiptWithBloomView;

    open spec fn view(&self) -> ReceiptWithBloomView {
        ReceiptWithBloomView { receipt: self.receipt@, logs_bloom: self.logs_bloom }
    }
}

/// The value of a [`ReceiptEnvelope`]: the type tag and the receipt's value.
pub struct ReceiptEnvelopeView {
    /// The transaction type the envelope is tagged with.
    pub tx_type: TxType,
    /// The value of the receipt inside.
    pub receipt: ReceiptWithBloomView,
}

impl View for ReceiptEnvelope {
    type V = ReceiptEnvelopeView;

    open spec fn view(&self) -> ReceiptEnvelopeView {
        ReceiptEnvelopeView { tx_type: self.tx_type(), receipt: self.payload()@ }
    }
}

/// A receipt tagged with the type of its transaction.
#[derive(Debug)]
pub enum ReceiptEnvelope {
    /// Receipt of a legacy transaction.
    Legacy(ReceiptWithBloom),
    /// Receipt of an EIP-2930 transaction.
    Eip2930(ReceiptWithBloom),
    /// Receipt of an EIP-1559 transaction.
    Eip1559(ReceiptWithBloom),
    /// Receipt of an EIP-4844 transaction.
    Eip4844(ReceiptWithBloom),
    /// Receipt of an EIP-7702 transaction.
    Eip7702(ReceiptWithBloom),
}

impl ReceiptEnvelope {
    /// The envelope of type `tx_type` around `receipt`.
    pub open spec fn spec_new(tx_type: TxType, receipt: ReceiptWithBloom) -> ReceiptEnvelope {
        match tx_type {
            TxType::Legacy => ReceiptEnvelope::Legacy(receipt),
            TxType::Eip2930 => ReceiptEnvelope::Eip2930(receipt),
            TxType::Eip1559 => ReceiptEnvelope::Eip1559(receipt),
            TxType::Eip4844 => ReceiptEnvelope::Eip4844(receipt),
            TxType::Eip7702 => ReceiptEnvelope::Eip7702(receipt),
        }
    }

    /// The transaction type the envelope is tagged with.
    pub open spec fn tx_type(self) -> TxType {
        match self {
            ReceiptEnvelope::Legacy(_) => TxType::Legacy,
            ReceiptEnvelope::Eip2930(_) => TxType::Eip2930,
            ReceiptEnvelope::Eip1559(_) => TxType::Eip1559,
            ReceiptEnvelope::Eip4844(_) => TxType::Eip4844,
            ReceiptEnvelope::Eip7702(_) => TxType::Eip7702,
        }
    }

    /// The receipt inside the envelope.
    pub open spec fn payload(self) -> ReceiptWithBloom {
        match self {
            ReceiptEnvelope::Legacy(r) => r,
            ReceiptEnvelope::Eip2930(r) => r,
            ReceiptEnvelope::Eip1559(r) => r,
            ReceiptEnvelope::Eip4844(r) => r,
            ReceiptEnvelope::Eip7702(r) => r,
        }
    }

    /// Wraps `receipt` in the envelope of type `tx_type`.
    pub fn new(tx_type: TxType, receipt: ReceiptWithBloom) -> (res: ReceiptEnvelope)
        ensures
            res == Self::spec_new(tx_type, receipt),
    {
        match tx_type {
            TxType::Legacy => ReceiptEnvelope::Legacy(receipt),
            TxType::Eip2930 => ReceiptEnvelope::Eip2930(receipt),
            TxType::Eip1559 => ReceiptEnvelope::Eip1559(receipt),
            TxType::Eip4844 => ReceiptEnvelope::Eip4844(receipt),
            TxType::Eip7702 => ReceiptEnvelope::Eip7702(receipt),
        }
    }
}

/// The fields of a [`TransactionReceipt`] besides its envelope.
#[derive(Clone, Copy, Debug, PartialEq, Eq)]
pub struct ReceiptFields {
    /// Hash of the transaction.
    pub transaction_hash: B256,
    /// Index of the transaction in the block.
    pub transaction_index: Option<u64>,
    /// Hash of the block.
    pub block_hash: Option<B256>,
    /// Number of the block.
    pub block_number: Option<u64>,
    /// Gas used by this transaction alone.
    pub gas_used: u64,
    /// The price per gas the sender paid.
    pub effective_gas_price: u128,
    /// Blob gas used.
    pub blob_gas_used: Option<u64>,
    /// Blob gas price.
    pub blob_gas_price: Option<u128>,
    /// The sender.
    pub from: Address,
    /// The called address.
    pub to: Option<Address>,
    /// The created contract.
    pub contract_address: Option<Address>,
}

/// The RPC answer for a mined transaction's receipt.
#[derive(Debug)]
pub struct TransactionReceipt<T = ReceiptEnvelope> {
    /// The consensus receipt, in its envelope.
    pub inner: T,
    /// Hash of the transaction.
    pub transaction_hash: B256,
    /// Index of the transaction in the block.
    pub transaction_index: Option<u64>,
    /// Hash of the block.
    pub block_hash: Option<B256>,
    /// Number of the block.
    pub block_number: Option<u64>,
    /// Gas used by this transaction alone.
    pub gas_used: u64,
    /// The price per gas the sender paid.
    pub effective_gas_price: u128,
    /// Blob gas used (EIP-4844 transactions only).
    pub blob_gas_used: Option<u64>,
    /// Blob gas price (EIP-4844 transactions only).
    pub blob_gas_price: Option<u128>,
    /// The sender.
    pub from: Address,
    /// The called address; `None` for a creation.
    pub to: Option<Address>,
    /// The created contract; `None` for a call.
    pub contract_address: Option<Address>,
}

impl<T> TransactionReceipt<T> {
    /// The fields besides the envelope.
    pub open spec fn fields(&self) -> ReceiptFields {
        ReceiptFields {
            transaction_hash: self.transaction_hash,
            transaction_index: self.transaction_index,
            block_hash: self.block_hash,
            block_number: self.block_number,
            gas_used: self.gas_used,
            effective_gas_price: self.effective_gas_price,
            blob_gas_used: self.blob_gas_used,
            blob_gas_price: self.blob_gas_price,
            from: self.from,
            to: self.to,
            contract_address: self.contract_address,
        }
    }
}

impl<T: View> View for TransactionReceipt<T> {
    type V = (ReceiptFields, T::V);

    open spec fn view(&self) -> (ReceiptFields, T::V) {
        (self.fields(), self.inner@)
    }
}

} // verus!
