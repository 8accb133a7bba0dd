//! Properties of receipt building: of the receipts of one block taken together, and
//! of the builders against one another.
use vstd::prelude::*;

use crate::builder::{
    builder_view, eth_receipt_spec, result_view, EthReceiptBuilder, EthReceiptBuilderStrategy,
    ReceiptBuilderProvider, RpcReceiptBuilder,
};
use crate::receipt::{
    build_defined, build_inputs_valid, build_receipt_post, eth_fields, eth_receipt_with_bloom,
    lemma_log_count_step, logs_before, receipts_before, spec_blob_gas_price, spec_contract_address,
    spec_gas_used, spec_receipt_with_bloom, spec_rpc_logs, spec_to,
};
use crate::blob::{fake_exp_from, spec_blob_fee};
use crate::types::{
    Address, BlobParams, EthResult, Receipt, ReceiptEnvelope, ReceiptEnvelopeView, ReceiptFields,
    ReceiptWithBloom, TransactionMeta, TransactionReceipt, TransactionSigned, TxType, Log, Bloom,
};

verus! {

/// The logs of the transaction at `index` are numbered right after those of the
/// transactions before it: the first log index of the next transaction is the first
/// log index of this one plus the number of its logs.
pub proof fn lemma_log_indices_contiguous(all: Seq<Receipt>, index: u64)
    requires
        index < all.len(),
        index < u64::MAX,
    ensures
        logs_before(all, (index + 1) as u64) == logs_before(all, index) + all[index as int].logs@.len(),
{
    lemma_log_count_step(all, index as int);
}

/// The number of logs before a transaction does not fall as the transaction's index
/// grows.
pub proof fn lemma_logs_before_monotonic(all: Seq<Receipt>, i: u64, j: u64)
    requires
        i <= j,
    ensures
        logs_before(all, i) <= logs_before(all, j),
    decreases j - i,
{
    if i < j && receipts_before(all, i) < receipts_before(all, j) {
        let jm = (j - 1) as u64;
        lemma_logs_before_monotonic(all, i, jm);
        if jm < all.len() {
            lemma_log_count_step(all, jm as int);
        }
    }
}

/// Two receipts built for different transactions of one block never share a log
/// index: every log of the earlier transaction has a smaller index than every log of
/// the later one.
pub proof fn lemma_block_log_indices_ordered(
    all: Seq<Receipt>,
    tx1: TransactionSigned,
    meta1: TransactionMeta,
    tx2: TransactionSigned,
    meta2: TransactionMeta,
    blob_params: Option<BlobParams>,
    r1: (ReceiptFields, ReceiptEnvelopeView),
    r2: (ReceiptFields, ReceiptEnvelopeView),
    k: int,
    m: int,
)
    requires
        meta1.index < meta2.index < all.len(),
        logs_before(all, meta2.index) + all[meta2.index as int].logs@.len() <= usize::MAX + 1,
        eth_receipt_spec(tx1, meta1, all[meta1.index as int], all, blob_params) == Ok::<
            (ReceiptFields, ReceiptEnvelopeView),
            crate::types::EthApiError,
        >(r1),
        eth_receipt_spec(tx2, meta2, all[meta2.index as int], all, blob_params) == Ok::<
            (ReceiptFields, ReceiptEnvelopeView),
            crate::types::EthApiError,
        >(r2),
        0 <= k < r1.1.receipt.receipt.logs.len(),
        0 <= m < r2.1.receipt.receipt.logs.len(),
    ensures
        r1.1.receipt.receipt.logs[k].log_index.unwrap() < r2.1.receipt.receipt.logs[m].log_index.unwrap(),
{
    let i = meta1.index;
    lemma_log_indices_contiguous(all, i);
    lemma_logs_before_monotonic(all, (i + 1) as u64, meta2.index);
}

/// Gas used by the first `n` transactions of a block, one by one.
pub open spec fn total_gas_used(all: Seq<Receipt>, n: int) -> int
    decreases n,
{
    if n <= 0 {
        0
    } else {
        total_gas_used(all, n - 1) + spec_gas_used((n - 1) as u64, all[n - 1], all)
    }
}

/// Cumulative gas does not fall along the first `n` receipts.
pub open spec fn cumulative_gas_monotonic(all: Seq<Receipt>, n: int) -> bool {
    forall|k: int|
        0 < k < n ==> #[trigger] all[k - 1].cumulative_gas_used <= all[k].cumulative_gas_used
}

/// The gas used by each of the first `n` transactions adds up to the cumulative gas
/// of the `n`-th.
pub proof fn lemma_gas_used_sums_to_cumulative(all: Seq<Receipt>, n: int)
    requires
        0 < n <= all.len(),
        n <= u64::MAX,
        cumulative_gas_monotonic(all, n),
    ensures
        total_gas_used(all, n) == all[n - 1].cumulative_gas_used,
    decreases n,
{
    if n > 1 {
        lemma_gas_used_sums_to_cumulative(all, n - 1);
        assert(all[n - 2].cumulative_gas_used <= all[n - 1].cumulative_gas_used);
        assert(spec_gas_used((n - 1) as u64, all[n - 1], all) == all[n - 1].cumulative_gas_used
            - all[n - 2].cumulative_gas_used);
    } else {
        assert(total_gas_used(all, 0) == 0);
    }
}

/// A receipt names exactly one of the called address and the created contract.
pub proof fn lemma_to_xor_contract_address(tx: TransactionSigned, from: Address)
    ensures
        spec_to(tx.kind) is Some <==> spec_contract_address(tx, from) is None,
{
}

/// Only a blob transaction has a blob gas price.
pub proof fn lemma_blob_gas_price_only_for_blob_tx(
    tx: TransactionSigned,
    meta: TransactionMeta,
    blob_params: Option<BlobParams>,
)
    ensures
        spec_blob_gas_price(tx, meta, blob_params) is Some ==> tx.tx_type is Eip4844
            && tx.spec_blob_gas_used() is Some,
{
}

/// The receipt of the transaction at `meta.index` reads only the receipts before it:
/// two blocks that agree on those receipts give the same receipt, and accept the
/// same inputs.
pub proof fn lemma_receipt_reads_only_earlier_receipts(
    tx: TransactionSigned,
    meta: TransactionMeta,
    receipt: Receipt,
    all: Seq<Receipt>,
    other: Seq<Receipt>,
    blob_params: Option<BlobParams>,
    from: Address,
)
    requires
        meta.index <= all.len(),
        meta.index <= other.len(),
        all.take(meta.index as int) == other.take(meta.index as int),
    ensures
        spec_gas_used(meta.index, receipt, all) == spec_gas_used(meta.index, receipt, other),
        logs_before(all, meta.index) == logs_before(other, meta.index),
        eth_fields(tx, meta, receipt, all, blob_params, from) == eth_fields(
            tx,
            meta,
            receipt,
            other,
            blob_params,
            from,
        ),
        eth_receipt_with_bloom(meta, receipt, all) == eth_receipt_with_bloom(meta, receipt, other),
        eth_receipt_spec(tx, meta, receipt, all, blob_params) == eth_receipt_spec(
            tx,
            meta,
            receipt,
            other,
            blob_params,
        ),
        build_inputs_valid(tx, meta, receipt, all) == build_inputs_valid(tx, meta, receipt, other),
        build_defined(tx, meta, receipt, all, blob_params) == build_defined(
            tx,
            meta,
            receipt,
            other,
            blob_params,
        ),
{
    let n = meta.index as int;
    if n > 0 {
        assert(all[n - 1] == all.take(n)[n - 1]);
        assert(other[n - 1] == other.take(n)[n - 1]);
    }
    assert(receipts_before(all, meta.index) == n);
    assert(receipts_before(other, meta.index) == n);
}

/// `build_receipt` with an envelope builder that tags the consensus receipt with the
/// stored receipt's type gives the Ethereum receipt.
pub proof fn lemma_tagged_build_receipt_is_eth_receipt(
    res: EthResult<TransactionReceipt>,
    tx: TransactionSigned,
    meta: TransactionMeta,
    receipt: Receipt,
    all: Seq<Receipt>,
    blob_params: Option<BlobParams>,
    envelope: spec_fn(ReceiptWithBloom, ReceiptEnvelope) -> bool,
)
    requires
        build_receipt_post(res, tx, meta, receipt, all, blob_params, envelope),
        forall|rwb: ReceiptWithBloom, e: ReceiptEnvelope|
            #[trigger] envelope(rwb, e) ==> e == ReceiptEnvelope::spec_new(receipt.tx_type, rwb),
    ensures
        result_view(res) == eth_receipt_spec(tx, meta, receipt, all, blob_params),
{
    if let Some(from) = tx.spec_signer() {
        let r = res.unwrap();
        let rwb = choose|rwb: ReceiptWithBloom|
            rwb@ == eth_receipt_with_bloom(meta, receipt, all) && #[trigger] envelope(rwb, r.inner);
        assert(r.inner == ReceiptEnvelope::spec_new(receipt.tx_type, rwb));
        assert(r.inner@ == ReceiptEnvelopeView {
            tx_type: receipt.tx_type,
            receipt: eth_receipt_with_bloom(meta, receipt, all),
        });
    }
}

/// `EthReceiptBuilder::new` gives what `build_receipt` gives with the envelope builder
/// that tags the consensus receipt with the stored receipt's type, errors included.
pub proof fn lemma_builder_is_tagged_build_receipt(
    built: EthResult<EthReceiptBuilder>,
    res: EthResult<TransactionReceipt>,
    tx: TransactionSigned,
    meta: TransactionMeta,
    receipt: Receipt,
    all: Seq<Receipt>,
    blob_params: Option<BlobParams>,
)
    requires
        builder_view(built) == eth_receipt_spec(tx, meta, receipt, all, blob_params),
        build_receipt_post(
            res,
            tx,
            meta,
            receipt,
            all,
            blob_params,
            |rwb: ReceiptWithBloom, e: ReceiptEnvelope| e == ReceiptEnvelope::spec_new(receipt.tx_type, rwb),
        ),
    ensures
        builder_view(built) == result_view(res),
{
    lemma_tagged_build_receipt_is_eth_receipt(
        res,
        tx,
        meta,
        receipt,
        all,
        blob_params,
        |rwb: ReceiptWithBloom, e: ReceiptEnvelope| e == ReceiptEnvelope::spec_new(receipt.tx_type, rwb),
    );
}

/// The Ethereum strategy, whatever its instance, builds what `EthReceiptBuilder::new`
/// followed by `build` gives, errors included.
pub proof fn lemma_strategy_builds_as_builder(
    strategy: EthReceiptBuilderStrategy,
    res: EthResult<TransactionReceipt>,
    built: EthResult<EthReceiptBuilder>,
    tx: TransactionSigned,
    meta: TransactionMeta,
    receipt: Receipt,
    all: Seq<Receipt>,
    blob_params: Option<BlobParams>,
)
    requires
        strategy.builds(tx, meta, receipt, all, blob_params, res),
        builder_view(built) == eth_receipt_spec(tx, meta, receipt, all, blob_params),
    ensures
        result_view(res) == builder_view(built),
{
}

/// For a known block, building through the Ethereum strategy as a provider gives what
/// `EthReceiptBuilder::new` followed by `build` gives on the block's receipts.
pub proof fn lemma_block_build_is_builder(
    api: EthReceiptBuilderStrategy,
    res: EthResult<TransactionReceipt>,
    built: EthResult<EthReceiptBuilder>,
    tx: TransactionSigned,
    meta: TransactionMeta,
    receipt: Receipt,
    all: Seq<Receipt>,
    blob_params: Option<BlobParams>,
)
    requires
        api.spec_receipt_builder().builds(tx, meta, receipt, all, blob_params, res),
        builder_view(built) == eth_receipt_spec(tx, meta, receipt, all, blob_params),
    ensures
        result_view(res) == builder_view(built),
{
    lemma_strategy_builds_as_builder(api.spec_receipt_builder(), res, built, tx, meta, receipt, all, blob_params);
}

/// The consensus receipt reports the stored receipt's outcome: its status is the
/// stored success flag (a failed transaction is reported as failed), and its
/// cumulative gas is the stored cumulative gas.
pub proof fn lemma_receipt_status_is_stored_outcome(
    receipt: Receipt,
    meta: TransactionMeta,
    first: int,
    bloom: Bloom,
)
    ensures
        spec_receipt_with_bloom(receipt, meta, first, bloom).receipt.status == receipt.success,
        !receipt.success ==> !spec_receipt_with_bloom(receipt, meta, first, bloom).receipt.status,
        spec_receipt_with_bloom(receipt, meta, first, bloom).receipt.cumulative_gas_used
            == receipt.cumulative_gas_used,
        spec_receipt_with_bloom(receipt, meta, first, bloom).logs_bloom == bloom,
{
}

/// Each RPC log carries the stored log unchanged: the same address, the same topics
/// in the same order and the same data, numbered consecutively from `first`.
pub proof fn lemma_rpc_logs_keep_stored_logs(logs: Seq<Log>, meta: TransactionMeta, first: int)
    ensures
        spec_rpc_logs(logs, meta, first).len() == logs.len(),
        forall|i: int|
            0 <= i < logs.len() ==> {
                let l = #[trigger] spec_rpc_logs(logs, meta, first)[i];
                &&& l.inner.0 == logs[i].address
                &&& l.inner.1 == logs[i].topics@
                &&& l.inner.2 == logs[i].data@
                &&& l.log_index == Some((first + i) as u64)
                &&& l.transaction_index == Some(meta.index)
                &&& !l.removed
            },
{
}

/// The envelope is tagged with the given transaction type, for each of the five
/// types, and wraps the given receipt.
pub proof fn lemma_envelope_tag(tx_type: TxType, receipt: ReceiptWithBloom)
    ensures
        ReceiptEnvelope::spec_new(tx_type, receipt).payload() == receipt,
        tx_type is Legacy ==> ReceiptEnvelope::spec_new(tx_type, receipt) is Legacy,
        tx_type is Eip2930 ==> ReceiptEnvelope::spec_new(tx_type, receipt) is Eip2930,
        tx_type is Eip1559 ==> ReceiptEnvelope::spec_new(tx_type, receipt) is Eip1559,
        tx_type is Eip4844 ==> ReceiptEnvelope::spec_new(tx_type, receipt) is Eip4844,
        tx_type is Eip7702 ==> ReceiptEnvelope::spec_new(tx_type, receipt) is Eip7702,
        ReceiptEnvelope::spec_new(tx_type, receipt).tx_type() == tx_type,
{
}

/// The price per gas a transaction pays: legacy and EIP-2930 transactions pay their
/// gas price; every dynamic-fee transaction (EIP-1559, EIP-4844, EIP-7702) pays its
/// fee cap without a base fee, and under a base fee `b` pays `b` plus its priority fee
/// where the cap leaves room above `b` for more than the priority fee, its cap
/// otherwise. So a dynamic-fee transaction never pays more than its cap.
pub proof fn lemma_effective_gas_price(tx: TransactionSigned, base_fee: Option<u64>)
    ensures
        (tx.tx_type is Legacy || tx.tx_type is Eip2930) ==> tx.spec_effective_gas_price(base_fee)
            == tx.gas_price,
        (tx.tx_type is Eip1559 || tx.tx_type is Eip4844 || tx.tx_type is Eip7702) ==> {
            let price = tx.spec_effective_gas_price(base_fee);
            &&& price <= tx.gas_price
            &&& base_fee is None ==> price == tx.gas_price
            &&& base_fee matches Some(b) ==> {
                if tx.gas_price > b + tx.max_priority_fee_per_gas {
                    price == b + tx.max_priority_fee_per_gas
                } else {
                    price == tx.gas_price
                }
            }
        },
{
}

/// A blob transaction in a block whose blob parameters `p` and excess blob gas `x`
/// are known has the blob gas price EIP-4844 gives for them, for every `x`, zero
/// included.
pub proof fn lemma_blob_gas_price_of_blob_tx(
    tx: TransactionSigned,
    meta: TransactionMeta,
    p: BlobParams,
    x: u64,
)
    requires
        tx.tx_type is Eip4844,
        meta.excess_blob_gas == Some(x),
    ensures
        spec_blob_gas_price(tx, meta, Some(p)) == spec_blob_fee(p.min_blob_fee, p.update_fraction, x),
{
}

/// Without excess blob gas the blob gas price is the minimum blob fee.
pub proof fn lemma_blob_fee_at_zero_excess(min_blob_fee: u128, update_fraction: u128)
    requires
        update_fraction > 0,
        min_blob_fee * update_fraction <= u128::MAX,
    ensures
        spec_blob_fee(min_blob_fee, update_fraction, 0) == Some(min_blob_fee),
{
    let a = (min_blob_fee * update_fraction) as u128;
    reveal_with_fuel(fake_exp_from, 3);
    assert((a as int) / (update_fraction as int) == min_blob_fee) by (nonlinear_arith)
        requires
            a == min_blob_fee * update_fraction,
            update_fraction > 0,
    ;
    assert(a * 0 == 0);
}

/// The Ethereum receipt of a transaction whose sender is recovered reports the
/// stored receipt as it is: the envelope tagged with the stored type, the stored
/// outcome and cumulative gas, the stored logs unchanged, the price paid, and the
/// blob gas price of a blob transaction.
pub proof fn lemma_eth_receipt_reports_inputs(
    tx: TransactionSigned,
    meta: TransactionMeta,
    receipt: Receipt,
    all: Seq<Receipt>,
    blob_params: Option<BlobParams>,
)
    requires
        tx.spec_signer() is Some,
    ensures
        eth_receipt_spec(tx, meta, receipt, all, blob_params) is Ok,
        ({
            let (fields, env) = eth_receipt_spec(tx, meta, receipt, all, blob_params).unwrap();
            &&& env.tx_type == receipt.tx_type
            &&& env.receipt.receipt.status == receipt.success
            &&& env.receipt.receipt.cumulative_gas_used == receipt.cumulative_gas_used
            &&& env.receipt.receipt.logs.len() == receipt.logs@.len()
            &&& forall|i: int|
                0 <= i < receipt.logs@.len() ==> {
                    let l = #[trigger] env.receipt.receipt.logs[i];
                    &&& l.inner.0 == receipt.logs@[i].address
                    &&& l.inner.1 == receipt.logs@[i].topics@
                    &&& l.inner.2 == receipt.logs@[i].data@
                }
            &&& fields.from == tx.spec_signer().unwrap()
            &&& fields.effective_gas_price == tx.spec_effective_gas_price(meta.base_fee)
            &&& (tx.tx_type is Eip4844 && blob_params is Some && meta.excess_blob_gas is Some)
                ==> fields.blob_gas_price == spec_blob_fee(
                blob_params.unwrap().min_blob_fee,
                blob_params.unwrap().update_fraction,
                meta.excess_blob_gas.unwrap(),
            )
            &&& !(tx.tx_type is Eip4844) ==> fields.blob_gas_price is None
        }),
{
    lemma_rpc_logs_keep_stored_logs(receipt.logs@, meta, logs_before(all, meta.index) as int);
}

} // verus!
