//! RPC receipt response builder: extends a stored receipt with where its
//! transaction and its logs stand in the chain.
use vstd::prelude::*;

use crate::blob::spec_blob_fee;
use crate::external::{calc_blob_fee, create_address, created_address, logs_bloom, logs_bloom_of};
use crate::types::{
    Address, BlobParams, Bloom, EthApiError, EthResult, Log, Receipt, ReceiptFields,
    ReceiptWithBloom, ReceiptWithBloomView, RpcLog, RpcLogView, RpcReceipt, RpcReceiptView,
    TransactionMeta, TransactionReceipt, TransactionSigned, TxKind, B256,
};

verus! {

// ---------------------------------------------------------------------------
// The model of a built receipt
// ---------------------------------------------------------------------------

/// Number of logs in all of `rs`.
pub open spec fn log_count(rs: Seq<Receipt>) -> nat
    decreases rs.len(),
{
    if rs.len() == 0 {
        0
    } else {
        log_count(rs.drop_last()) + rs.last().logs@.len()
    }
}

/// How many of the block's receipts precede the one at `index` (all of them where
/// `index` lies past the end).
pub open spec fn receipts_before(all: Seq<Receipt>, index: u64) -> int {
    if index < all.len() {
        index as int
    } else {
        all.len() as int
    }
}

/// Number of logs emitted in the block before the transaction at `index`.
pub open spec fn logs_before(all: Seq<Receipt>, index: u64) -> nat {
    log_count(all.take(receipts_before(all, index)))
}

/// Gas used by the transaction at `index` alone: its cumulative gas less that of the
/// transaction before it; the cumulative gas itself for the first transaction; zero
/// where the receipt before it is missing from `all`.
pub open spec fn spec_gas_used(index: u64, receipt: Receipt, all: Seq<Receipt>) -> u64 {
    if index == 0 {
        receipt.cumulative_gas_used
    } else if index - 1 < all.len() {
        (receipt.cumulative_gas_used - all[index - 1].cumulative_gas_used) as u64
    } else {
        0
    }
}

/// The subtraction of `spec_gas_used` does not underflow: cumulative gas does not
/// fall from the previous transaction to this one.
pub open spec fn gas_used_defined(index: u64, receipt: Receipt, all: Seq<Receipt>) -> bool {
    index == 0 || index - 1 >= all.len() || all[index - 1].cumulative_gas_used
        <= receipt.cumulative_gas_used
}

/// The RPC value of `log` placed in the chain by `meta` at block-wide `log_index`.
pub open spec fn spec_rpc_log(log: Log, meta: TransactionMeta, log_index: int) -> RpcLogView {
    RpcLogView {
        inner: log@,
        block_hash: Some(meta.block_hash),
        block_number: Some(meta.block_number),
        block_timestamp: Some(meta.timestamp),
        transaction_hash: Some(meta.tx_hash),
        transaction_index: Some(meta.index),
        log_index: Some(log_index as u64),
        removed: false,
    }
}

/// The RPC values of `logs` in order, placed by `meta`, numbered in the block from
/// `first` on.
pub open spec fn spec_rpc_logs(logs: Seq<Log>, meta: TransactionMeta, first: int) -> Seq<RpcLogView> {
    Seq::new(logs.len(), |i: int| spec_rpc_log(logs[i], meta, first + i))
}

/// The bloom filter of a receipt's logs.
pub open spec fn receipt_bloom(receipt: Receipt) -> Bloom {
    logs_bloom_of(receipt.logs@.map_values(|l: Log| l@))
}

/// The RPC value of `receipt`: its status and cumulative gas, its logs numbered in the
/// block from `first` on, and `bloom`.
pub open spec fn spec_receipt_with_bloom(
    receipt: Receipt,
    meta: TransactionMeta,
    first: int,
    bloom: Bloom,
) -> ReceiptWithBloomView {
    ReceiptWithBloomView {
        receipt: RpcReceiptView {
            status: receipt.success,
            cumulative_gas_used: receipt.cumulative_gas_used,
            logs: spec_rpc_logs(receipt.logs@, meta, first),
        },
        logs_bloom: bloom,
    }
}

/// The called address of a transaction kind; `None` for a creation.
pub open spec fn spec_to(kind: TxKind) -> Option<Address> {
    match kind {
        TxKind::Create => None,
        TxKind::Call(a) => Some(a),
    }
}

/// The contract a creation by `from` deploys; `None` for a call.
pub open spec fn spec_contract_address(tx: TransactionSigned, from: Address) -> Option<Address> {
    match tx.kind {
        TxKind::Create => Some(created_address(from, tx.nonce)),
        TxKind::Call(_) => None,
    }
}

/// The blob gas price: present only for a blob transaction in a block whose blob
/// parameters and excess blob gas are known (and where the fee is defined).
pub open spec fn spec_blob_gas_price(
    tx: TransactionSigned,
    meta: TransactionMeta,
    blob_params: Option<BlobParams>,
) -> Option<u128> {
    match (tx.spec_blob_gas_used(), blob_params, meta.excess_blob_gas) {
        (Some(_), Some(p), Some(x)) => spec_blob_fee(p.min_blob_fee, p.update_fraction, x),
        _ => None,
    }
}

/// The fields of the receipt of `tx`, given the sender, the created contract and
/// the blob gas price.
pub open spec fn spec_fields(
    tx: TransactionSigned,
    meta: TransactionMeta,
    receipt: Receipt,
    all: Seq<Receipt>,
    from: Address,
    contract_address: Option<Address>,
    blob_gas_price: Option<u128>,
) -> ReceiptFields {
    ReceiptFields {
        transaction_hash: meta.tx_hash,
        transaction_index: Some(meta.index),
        block_hash: Some(meta.block_hash),
        block_number: Some(meta.block_number),
        gas_used: spec_gas_used(meta.index, receipt, all),
        effective_gas_price: tx.spec_effective_gas_price(meta.base_fee),
        blob_gas_used: tx.spec_blob_gas_used(),
        blob_gas_price,
        from,
        to: spec_to(tx.kind),
        contract_address,
    }
}

/// The fields of the receipt of `tx` sent by `from`.
pub open spec fn eth_fields(
    tx: TransactionSigned,
    meta: TransactionMeta,
    receipt: Receipt,
    all: Seq<Receipt>,
    blob_params: Option<BlobParams>,
    from: Address,
) -> ReceiptFields {
    spec_fields(
        tx,
        meta,
        receipt,
        all,
        from,
        spec_contract_address(tx, from),
        spec_blob_gas_price(tx, meta, blob_params),
    )
}

/// The RPC value of the consensus receipt of the transaction at `meta.index`.
pub open spec fn eth_receipt_with_bloom(
    meta: TransactionMeta,
    receipt: Receipt,
    all: Seq<Receipt>,
) -> ReceiptWithBloomView {
    spec_receipt_with_bloom(receipt, meta, logs_before(all, meta.index) as int, receipt_bloom(receipt))
}

/// What `build_receipt` gives, where `envelope(rwb, e)` says that the envelope
/// builder may answer `e` for `rwb`: the invalid-signature error exactly where no
/// sender can be recovered, otherwise the receipt with its fields and an envelope
/// built from the consensus receipt.
pub open spec fn build_receipt_post<E>(
    res: EthResult<TransactionReceipt<E>>,
    tx: TransactionSigned,
    meta: TransactionMeta,
    receipt: Receipt,
    all: Seq<Receipt>,
    blob_params: Option<BlobParams>,
    envelope: spec_fn(ReceiptWithBloom, E) -> bool,
) -> bool {
    match tx.spec_signer() {
        None => res == Err::<TransactionReceipt<E>, EthApiError>(EthApiError::InvalidTransactionSignature),
        Some(from) => res matches Ok(r) && r.fields() == eth_fields(tx, meta, receipt, all, blob_params, from)
            && exists|rwb: ReceiptWithBloom|
            rwb@ == eth_receipt_with_bloom(meta, receipt, all) && #[trigger] envelope(rwb, r.inner),
    }
}

/// What the inputs of a receipt build must satisfy for its arithmetic to stay in
/// range: cumulative gas does not fall, the block-wide index of every log up to this
/// transaction's last fits in a `usize`, and the blob gas fits in a `u64`.
pub open spec fn build_inputs_valid(
    tx: TransactionSigned,
    meta: TransactionMeta,
    receipt: Receipt,
    all: Seq<Receipt>,
) -> bool {
    &&& gas_used_defined(meta.index, receipt, all)
    &&& logs_before(all, meta.index) <= usize::MAX
    &&& logs_before(all, meta.index) + receipt.logs@.len() <= usize::MAX + 1
    &&& tx.blob_gas_fits()
}

/// The blob fee can be computed without overflow where it is asked for.
pub open spec fn blob_params_valid(
    tx: TransactionSigned,
    meta: TransactionMeta,
    blob_params: Option<BlobParams>,
) -> bool {
    (tx.tx_type is Eip4844 && meta.excess_blob_gas is Some && blob_params is Some) ==> spec_blob_fee(
        blob_params.unwrap().min_blob_fee,
        blob_params.unwrap().update_fraction,
        meta.excess_blob_gas.unwrap(),
    ) is Some
}

/// The inputs on which a receipt build is defined: where a sender can be recovered
/// (the build fails with the signature error before any arithmetic otherwise), its
/// arithmetic stays in range and the blob fee can be computed.
pub open spec fn build_defined(
    tx: TransactionSigned,
    meta: TransactionMeta,
    receipt: Receipt,
    all: Seq<Receipt>,
    blob_params: Option<BlobParams>,
) -> bool {
    tx.spec_signer() is Some ==> {
        &&& build_inputs_valid(tx, meta, receipt, all)
        &&& blob_params_valid(tx, meta, blob_params)
    }
}

// ---------------------------------------------------------------------------
// Building blocks
// ---------------------------------------------------------------------------

/// Counting one more receipt adds its logs.
pub proof fn lemma_log_count_step(rs: Seq<Receipt>, i: int)
    requires
        0 <= i < rs.len(),
    ensures
        log_count(rs.take(i + 1)) == log_count(rs.take(i)) + rs[i].logs@.len(),
{
    assert(rs.take(i + 1).drop_last() =~= rs.take(i));
}

/// Gas used by the transaction at `index` alone.
pub fn gas_used(index: u64, receipt: &Receipt, all_receipts: &[Receipt]) -> (res: u64)
    requires
        gas_used_defined(index, *receipt, all_receipts@),
    ensures
        res == spec_gas_used(index, *receipt, all_receipts@),
{
    if index == 0 {
        receipt.cumulative_gas_used
    } else {
        let prev = index - 1;
        if prev < all_receipts.len() as u64 {
            let prev_receipt = &all_receipts[prev as usize];
            receipt.cumulative_gas_used - prev_receipt.cumulative_gas_used
        } else {
            0
        }
    }
}

/// Number of logs emitted in the block before the transaction at `index`.
pub fn count_logs_before(all_receipts: &[Receipt], index: u64) -> (res: usize)
    requires
        logs_before(all_receipts@, index) <= usize::MAX,
    ensures
        res == logs_before(all_receipts@, index),
{
    let n: usize = if index < all_receipts.len() as u64 {
        index as usize
    } else {
        all_receipts.len()
    };
    let ghost all = all_receipts@;
    assert(n == receipts_before(all, index));
    let mut num_logs: usize = 0;
    let mut i: usize = 0;
    while i < n
        invariant
            all == all_receipts@,
            n == receipts_before(all, index),
            n <= all.len(),
            i <= n,
            num_logs == log_count(all.take(i as int)),
            logs_before(all, index) <= usize::MAX,
        decreases n - i,
    {
        proof {
            lemma_log_count_step(all, i as int);
            lemma_log_count_take_mono(all, (i + 1) as int, n as int);
        }
        num_logs = num_logs + all_receipts[i].logs.len();
        i = i + 1;
    }
    num_logs
}

proof fn lemma_log_count_take_mono(rs: Seq<Receipt>, i: int, j: int)
    requires
        0 <= i <= j <= rs.len(),
    ensures
        log_count(rs.take(i)) <= log_count(rs.take(j)),
    decreases j - i,
{
    if i < j {
        lemma_log_count_step(rs, j - 1);
        lemma_log_count_take_mono(rs, i, j - 1);
    }
}

/// A copy of a log.
pub fn copy_log(log: &Log) -> (res: Log)
    ensures
        res@ == log@,
{
    let mut topics: Vec<B256> = Vec::new();
    let mut i: usize = 0;
    while i < log.topics.len()
        invariant
            i <= log.topics.len(),
            topics@ == log.topics@.take(i as int),
        decreases log.topics.len() - i,
    {
        topics.push(log.topics[i]);
        i = i + 1;
        assert(topics@ =~= log.topics@.take(i as int));
    }
    assert(log.topics@.take(i as int) =~= log.topics@);
    let mut data: Vec<u8> = Vec::new();
    let mut j: usize = 0;
    while j < log.data.len()
        invariant
            j <= log.data.len(),
            data@ == log.data@.take(j as int),
        decreases log.data.len() - j,
    {
        data.push(log.data[j]);
        j = j + 1;
        assert(data@ =~= log.data@.take(j as int));
    }
    assert(log.data@.take(j as int) =~= log.data@);
    Log { address: log.address, topics, data }
}

/// The logs of a transaction placed in the chain by `meta`, numbered in the block
/// from `first_log_index` on.
pub fn rpc_logs(logs: &[Log], meta: &TransactionMeta, first_log_index: usize) -> (res: Vec<RpcLog>)
    requires
        first_log_index + logs@.len() <= usize::MAX + 1,
    ensures
        res@.map_values(|l: RpcLog| l@) == spec_rpc_logs(logs@, *meta, first_log_index as int),
{
    let mut out: Vec<RpcLog> = Vec::new();
    let mut i: usize = 0;
    while i < logs.len()
        invariant
            i <= logs@.len(),
            first_log_index + logs@.len() <= usize::MAX + 1,
            out@.len() == i,
            forall|k: int|
                0 <= k < i ==> #[trigger] out@[k]@ == spec_rpc_log(logs@[k], *meta, first_log_index + k),
        decreases logs.len() - i,
    {
        let log_index: usize = first_log_index + i;
        out.push(RpcLog {
            inner: copy_log(&logs[i]),
            block_hash: Some(meta.block_hash),
            block_number: Some(meta.block_number),
            block_timestamp: Some(meta.timestamp),
            transaction_hash: Some(meta.tx_hash),
            transaction_index: Some(meta.index),
            log_index: Some(log_index as u64),
            removed: false,
        });
        i = i + 1;
    }
    assert(out@.map_values(|l: RpcLog| l@) =~= spec_rpc_logs(logs@, *meta, first_log_index as int));
    out
}

// ---------------------------------------------------------------------------
// Receipt building
// ---------------------------------------------------------------------------

/// Assembles a [`TransactionReceipt`] from the transaction, its block context and its
/// receipt, given the results of the outside computations: the recovered sender
/// `from`, the bloom of the receipt's logs, the created contract's address (for a
/// creation) and the blob gas price. The envelope around the consensus receipt comes
/// from `build_envelope`.
pub fn assemble_receipt<E, F: FnOnce(ReceiptWithBloom) -> E>(
    transaction: &TransactionSigned,
    meta: TransactionMeta,
    receipt: &Receipt,
    all_receipts: &[Receipt],
    from: Address,
    receipt_logs_bloom: Bloom,
    contract_address: Option<Address>,
    blob_gas_price: Option<u128>,
    build_envelope: F,
) -> (res: TransactionReceipt<E>)
    requires
        build_inputs_valid(*transaction, meta, *receipt, all_receipts@),
        forall|r: ReceiptWithBloom| build_envelope.requires((r,)),
    ensures
        res.fields() == spec_fields(
            *transaction,
            meta,
            *receipt,
            all_receipts@,
            from,
            contract_address,
            blob_gas_price,
        ),
        exists|rwb: ReceiptWithBloom|
            rwb@ == spec_receipt_with_bloom(
                *receipt,
                meta,
                logs_before(all_receipts@, meta.index) as int,
                receipt_logs_bloom,
            ) && build_envelope.ensures((rwb,), res.inner),
{
    // gas used by this transaction: its cumulative gas less that of the previous one
    let gas_used = gas_used(meta.index, receipt, all_receipts);
    let blob_gas_used = transaction.blob_gas_used();

    // number of logs in the block before this transaction
    let num_logs = count_logs_before(all_receipts, meta.index);
    let logs = rpc_logs(receipt.logs.as_slice(), &meta, num_logs);

    let rpc_receipt = RpcReceipt {
        status: receipt.success,
        cumulative_gas_used: receipt.cumulative_gas_used,
        logs,
    };
    let to = match transaction.kind() {
        TxKind::Create => None,
        TxKind::Call(addr) => Some(addr),
    };
    let effective_gas_price = transaction.effective_gas_price(meta.base_fee);
    let rwb = ReceiptWithBloom { receipt: rpc_receipt, logs_bloom: receipt_logs_bloom };
    let ghost rwb_spec = rwb;
    assert(rwb_spec@ == spec_receipt_with_bloom(*receipt, meta, num_logs as int, receipt_logs_bloom));
    let inner = build_envelope(rwb);
    assert(build_envelope.ensures((rwb_spec,), inner));
    TransactionReceipt {
        inner,
        transaction_hash: meta.tx_hash,
        transaction_index: Some(meta.index),
        block_hash: Some(meta.block_hash),
        block_number: Some(meta.block_number),
        from,
        to,
        gas_used,
        contract_address,
        effective_gas_price,
        blob_gas_price,
        blob_gas_used,
    }
}

/// Builds a [`TransactionReceipt`] obtaining the inner receipt envelope from the
/// given closure.
///
/// This is the core receipt building function that handles all the common logic for
/// constructing receipts. The envelope building strategy is provided as a closure
/// to allow different chains to customize the envelope type.
///
/// Fails with `InvalidTransactionSignature` exactly when no sender can be recovered
/// from the transaction's signature.
pub fn build_receipt<E, F: FnOnce(ReceiptWithBloom) -> E>(
    transaction: &TransactionSigned,
    meta: TransactionMeta,
    receipt: &Receipt,
    all_receipts: &[Receipt],
    blob_params: Option<BlobParams>,
    build_envelope: F,
) -> (res: EthResult<TransactionReceipt<E>>)
    requires
        build_defined(*transaction, meta, *receipt, all_receipts@, blob_params),
        forall|r: ReceiptWithBloom| build_envelope.requires((r,)),
    ensures
        build_receipt_post(
            res,
            *transaction,
            meta,
            *receipt,
            all_receipts@,
            blob_params,
            |rwb: ReceiptWithBloom, e: E| build_envelope.ensures((rwb,), e),
        ),
{
    // the transaction is mined (or part of the pending block), so its signature is
    // not checked against EIP-2
    let from = match transaction.recover_signer_unchecked() {
        Ok(from) => from,
        Err(_) => {
            return Err(EthApiError::InvalidTransactionSignature);
        },
    };

    // the blob gas price is present only for a blob transaction
    let blob_gas_price = match (transaction.blob_gas_used(), blob_params, meta.excess_blob_gas) {
        (Some(_), Some(params), Some(excess_blob_gas)) => Some(
            calc_blob_fee(
                params.target_blob_count,
                params.max_blob_count,
                params.update_fraction,
                params.min_blob_fee,
                params.max_blobs_per_tx,
                params.blob_base_cost,
                excess_blob_gas,
            ),
        ),
        _ => None,
    };

    let receipt_logs = receipt.logs.as_slice();
    let receipt_logs_bloom = logs_bloom(receipt_logs);
    assert(receipt_logs_bloom == receipt_bloom(*receipt)) by {
        assert(receipt.logs@.map_values(|l: Log| l@) =~= receipt_logs@.map_values(|l: Log| l@));
    }

    let contract_address = match transaction.kind() {
        TxKind::Create => Some(create_address(&from, transaction.nonce())),
        TxKind::Call(_) => None,
    };

    let r = assemble_receipt(
        transaction,
        meta,
        receipt,
        all_receipts,
        from,
        receipt_logs_bloom,
        contract_address,
        blob_gas_price,
        build_envelope,
    );
    assert(contract_address == spec_contract_address(*transaction, from));
    assert(blob_gas_price == spec_blob_gas_price(*transaction, meta, blob_params));
    proof {
        let w = choose|rwb: ReceiptWithBloom|
            rwb@ == spec_receipt_with_bloom(
                *receipt,
                meta,
                logs_before(all_receipts@, meta.index) as int,
                receipt_logs_bloom,
            ) && build_envelope.ensures((rwb,), r.inner);
        let envelope = |rwb: ReceiptWithBloom, e: E| build_envelope.ensures((rwb,), e);
        assert(envelope(w, r.inner));
        assert(w@ == eth_receipt_with_bloom(meta, *receipt, all_receipts@));
    }
    Ok(r)
}

} // verus!
