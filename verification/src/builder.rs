//! Receipt building strategies: the extension points through which a chain plugs
//! its own transaction and envelope types into receipt building, and the
//! Ethereum strategy.
use vstd::prelude::*;

use crate::laws::lemma_tagged_build_receipt_is_eth_receipt;
use crate::receipt::{
    build_defined, build_receipt, eth_fields, eth_receipt_with_bloom,
};
use crate::types::{
    BlobParams, EthApiError, EthResult, Receipt, ReceiptEnvelope, ReceiptEnvelopeView,
    ReceiptFields, ReceiptWithBloom, TransactionMeta, TransactionReceipt, TransactionSigned,
};

verus! {

/// The value of the Ethereum RPC receipt of `tx`, placed by `meta`, whose stored
/// receipt is `receipt` among the block's receipts `all`: an invalid-signature error
/// exactly where no sender can be recovered; otherwise the receipt's fields and its
/// consensus receipt, in the envelope tagged with the stored receipt's type.
pub open spec fn eth_receipt_spec(
    tx: TransactionSigned,
    meta: TransactionMeta,
    receipt: Receipt,
    all: Seq<Receipt>,
    blob_params: Option<BlobParams>,
) -> EthResult<(ReceiptFields, ReceiptEnvelopeView)> {
    match tx.spec_signer() {
        None => Err(EthApiError::InvalidTransactionSignature),
        Some(from) => Ok(
            (
                eth_fields(tx, meta, receipt, all, blob_params, from),
                ReceiptEnvelopeView {
                    tx_type: receipt.tx_type,
                    receipt: eth_receipt_with_bloom(meta, receipt, all),
                },
            ),
        ),
    }
}

/// The value of a receipt build's result.
pub open spec fn result_view(res: EthResult<TransactionReceipt>) -> EthResult<
    (ReceiptFields, ReceiptEnvelopeView),
> {
    match res {
        Ok(r) => Ok(r@),
        Err(e) => Err(e),
    }
}

/// The value of the receipt a builder holds, or the error that building it gave.
pub open spec fn builder_view(res: EthResult<EthReceiptBuilder>) -> EthResult<
    (ReceiptFields, ReceiptEnvelopeView),
> {
    match res {
        Ok(b) => Ok(b.base@),
        Err(e) => Err(e),
    }
}

/// RPC receipt response building strategy for different transaction and receipt types.
///
/// This trait abstracts RPC receipt response building to allow custom transaction
/// envelopes to integrate with the RPC layer while reusing the core receipt building
/// logic.
pub trait RpcReceiptBuilder<Tx, R> {
    /// The envelope type for the receipt response.
    type ReceiptEnvelope;

    /// The inputs on which the builder is defined.
    spec fn accepts(
        &self,
        tx: Tx,
        meta: TransactionMeta,
        receipt: R,
        all_receipts: Seq<R>,
        blob_params: Option<BlobParams>,
    ) -> bool;

    /// Whether `res` is what the builder gives for these inputs.
    spec fn builds(
        &self,
        tx: Tx,
        meta: TransactionMeta,
        receipt: R,
        all_receipts: Seq<R>,
        blob_params: Option<BlobParams>,
        res: EthResult<TransactionReceipt<Self::ReceiptEnvelope>>,
    ) -> bool;

    /// Build a transaction receipt from transaction and receipt data.
    fn build_transaction_receipt(
        &self,
        tx: &Tx,
        meta: TransactionMeta,
        receipt: &R,
        all_receipts: &[R],
        blob_params: Option<BlobParams>,
    ) -> (res: EthResult<TransactionReceipt<Self::ReceiptEnvelope>>)
        requires
            self.accepts(*tx, meta, *receipt, all_receipts@, blob_params),
        ensures
            self.builds(*tx, meta, *receipt, all_receipts@, blob_params, res),
    ;
}

/// Trait for providing a receipt builder strategy.
pub trait ReceiptBuilderProvider<Tx, R> {
    /// The receipt builder type.
    type Builder: RpcReceiptBuilder<Tx, R>;

    /// The builder instance the provider hands out.
    spec fn spec_receipt_builder(&self) -> Self::Builder;

    /// Get the receipt builder instance.
    fn receipt_builder(&self) -> (res: &Self::Builder)
        ensures
            *res == self.spec_receipt_builder(),
    ;
}

/// Ethereum receipt builder strategy.
///
/// Uses the standard Ethereum receipt building logic with Ethereum transactions.
#[derive(Debug, Default, Clone, Copy)]
pub struct EthReceiptBuilderStrategy;

impl RpcReceiptBuilder<TransactionSigned, Receipt> for EthReceiptBuilderStrategy {
    type ReceiptEnvelope = ReceiptEnvelope;

    open spec fn accepts(
        &self,
        tx: TransactionSigned,
        meta: TransactionMeta,
        receipt: Receipt,
        all_receipts: Seq<Receipt>,
        blob_params: Option<BlobParams>,
    ) -> bool {
        build_defined(tx, meta, receipt, all_receipts, blob_params)
    }

    open spec fn builds(
        &self,
        tx: TransactionSigned,
        meta: TransactionMeta,
        receipt: Receipt,
        all_receipts: Seq<Receipt>,
        blob_params: Option<BlobParams>,
        res: EthResult<TransactionReceipt>,
    ) -> bool {
        result_view(res) == eth_receipt_spec(tx, meta, receipt, all_receipts, blob_params)
    }

    fn build_transaction_receipt(
        &self,
        tx: &TransactionSigned,
        meta: TransactionMeta,
        receipt: &Receipt,
        all_receipts: &[Receipt],
        blob_params: Option<BlobParams>,
    ) -> (res: EthResult<TransactionReceipt>) {
        match EthReceiptBuilder::new(tx, meta, receipt, all_receipts, blob_params) {
            Ok(builder) => Ok(builder.build()),
            Err(e) => Err(e),
        }
    }
}

/// The Ethereum strategy hands out itself.
impl ReceiptBuilderProvider<TransactionSigned, Receipt> for EthReceiptBuilderStrategy {
    type Builder = EthReceiptBuilderStrategy;

    open spec fn spec_receipt_builder(&self) -> EthReceiptBuilderStrategy {
        *self
    }

    fn receipt_builder(&self) -> (res: &EthReceiptBuilderStrategy) {
        self
    }
}

/// Receipt response builder.
#[derive(Debug)]
pub struct EthReceiptBuilder {
    /// The base response body, contains L1 fields.
    pub base: TransactionReceipt,
}

impl EthReceiptBuilder {
    /// Returns a new builder with the base response body (L1 fields) set.
    ///
    /// Note: This requires _all_ block receipts because we need to calculate the gas
    /// used by the transaction.
    pub fn new(
        transaction: &TransactionSigned,
        meta: TransactionMeta,
        receipt: &Receipt,
        all_receipts: &[Receipt],
        blob_params: Option<BlobParams>,
    ) -> (res: EthResult<Self>)
        requires
            build_defined(*transaction, meta, *receipt, all_receipts@, blob_params),
        ensures
            builder_view(res) == eth_receipt_spec(*transaction, meta, *receipt, all_receipts@, blob_params),
    {
        let tx_type = receipt.tx_type;
        let build_envelope = |receipt_with_bloom: ReceiptWithBloom| -> (e: ReceiptEnvelope)
            ensures
                e == ReceiptEnvelope::spec_new(tx_type, receipt_with_bloom),
            { ReceiptEnvelope::new(tx_type, receipt_with_bloom) };
        let res = build_receipt(transaction, meta, receipt, all_receipts, blob_params, build_envelope);
        proof {
            lemma_tagged_build_receipt_is_eth_receipt(
                res,
                *transaction,
                meta,
                *receipt,
                all_receipts@,
                blob_params,
                |rwb: ReceiptWithBloom, e: ReceiptEnvelope| build_envelope.ensures((rwb,), e),
            );
        }
        match res {
            Ok(base) => Ok(Self { base }),
            Err(e) => Err(e),
        }
    }

    /// Builds a receipt response from the base response body, and any set additional
    /// fields.
    pub fn build(self) -> (res: TransactionReceipt)
        ensures
            res == self.base,
    {
        self.base
    }
}

/// Builds the receipt of a transaction with the builder that `api` provides, from the
/// receipts of its block as a node's receipt cache answered for the block hash of
/// `meta`: `None` where the block is unknown, which fails with `HeaderNotFound` for
/// that hash.
pub fn build_transaction_receipt_in_block<Tx, R, P: ReceiptBuilderProvider<Tx, R>>(
    api: &P,
    tx: Tx,
    meta: TransactionMeta,
    receipt: R,
    block_receipts: Option<Vec<R>>,
    blob_params: Option<BlobParams>,
) -> (res: EthResult<TransactionReceipt<<P::Builder as RpcReceiptBuilder<Tx, R>>::ReceiptEnvelope>>)
    requires
        block_receipts matches Some(all) ==> api.spec_receipt_builder().accepts(
            tx,
            meta,
            receipt,
            all@,
            blob_params,
        ),
    ensures
        block_receipts is None ==> res == Err::<
            TransactionReceipt<<P::Builder as RpcReceiptBuilder<Tx, R>>::ReceiptEnvelope>,
            EthApiError,
        >(EthApiError::HeaderNotFound(meta.block_hash)),
        block_receipts matches Some(all) ==> api.spec_receipt_builder().builds(
            tx,
            meta,
            receipt,
            all@,
            blob_params,
            res,
        ),
{
    match block_receipts {
        None => Err(EthApiError::HeaderNotFound(meta.block_hash)),
        Some(all_receipts) => {
            let builder = api.receipt_builder();
            builder.build_transaction_receipt(&tx, meta, &receipt, all_receipts.as_slice(), blob_params)
        },
    }
}

} // verus!
