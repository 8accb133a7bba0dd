use bera_receipt::blob::blob_fee_computable;
use bera_receipt::builder::{
    build_transaction_receipt_in_block, EthReceiptBuilder, EthReceiptBuilderStrategy,
    ReceiptBuilderProvider, RpcReceiptBuilder,
};
use bera_receipt::receipt::{assemble_receipt, build_receipt, count_logs_before, gas_used, rpc_logs};
use bera_receipt::types::{
    BlobParams, EthApiError, Log, Receipt, ReceiptEnvelope, ReceiptWithBloom, Signature,
    TransactionMeta, TransactionSigned, TxKind, TxType, B256,
};

fn bytes32(hex: &str) -> B256 {
    let v = alloy_primitives::hex::decode(hex).unwrap();
    let mut out = [0u8; 32];
    out.copy_from_slice(&v);
    out
}

fn bytes20(hex: &str) -> [u8; 20] {
    let v = alloy_primitives::hex::decode(hex).unwrap();
    let mut out = [0u8; 20];
    out.copy_from_slice(&v);
    out
}

/// The sender of the EIP-155 example transaction.
fn eip155_sender() -> [u8; 20] {
    bytes20("9d8a62f656a8d1615c1294fd71e9cfb3e4855a4f")
}

/// The signed legacy transaction of the EIP-155 example (nonce 9, 20 gwei, to 0x3535..).
fn eip155_tx(kind: TxKind) -> TransactionSigned {
    TransactionSigned {
        tx_type: TxType::Legacy,
        nonce: 9,
        kind,
        gas_price: 20_000_000_000,
        max_priority_fee_per_gas: 0,
        blob_versioned_hashes: vec![],
        signature: Signature {
            r: bytes32("28ef61340bd939bc2195fe537567866003e1a15d3c71ff63e1590620aa636276"),
            s: bytes32("67cbe9d8997f761aecb703304b3800ccf555c9f3dc64214b297fb1966a3b6d83"),
            y_parity: false,
        },
        signature_hash: bytes32("daf5a779ae972f972197303d7b574746c7ef83eadac0f2791ad23db92e4c8e53"),
    }
}

fn call_kind() -> TxKind {
    TxKind::Call([0x35; 20])
}

fn log(address_byte: u8, topics: usize) -> Log {
    Log { address: [address_byte; 20], topics: vec![[address_byte; 32]; topics], data: vec![1, 2, 3] }
}

fn receipt(tx_type: TxType, cumulative: u64, logs: usize) -> Receipt {
    Receipt {
        tx_type,
        success: true,
        cumulative_gas_used: cumulative,
        logs: (0..logs).map(|i| log(i as u8 + 1, 1)).collect(),
    }
}

fn copy_receipt(r: &Receipt) -> Receipt {
    Receipt {
        tx_type: r.tx_type,
        success: r.success,
        cumulative_gas_used: r.cumulative_gas_used,
        logs: r.logs.iter().map(|l| Log { address: l.address, topics: l.topics.clone(), data: l.data.clone() }).collect(),
    }
}

/// Three transactions: 21000, 30000 and 50000 gas, with 2, 1 and 3 logs.
fn block() -> Vec<Receipt> {
    vec![
        receipt(TxType::Legacy, 21_000, 2),
        receipt(TxType::Eip1559, 51_000, 1),
        receipt(TxType::Eip4844, 101_000, 3),
    ]
}

fn meta(index: u64) -> TransactionMeta {
    TransactionMeta {
        tx_hash: [0xaa; 32],
        index,
        block_hash: [0xbb; 32],
        block_number: 17,
        base_fee: Some(7),
        excess_blob_gas: None,
        timestamp: 1_700_000_000,
    }
}

#[test]
fn gas_used_of_first_transaction_is_its_cumulative_gas() {
    let all = block();
    assert_eq!(gas_used(0, &all[0], &all), 21_000);
}

#[test]
fn gas_used_is_difference_with_previous_cumulative_gas() {
    let all = block();
    assert_eq!(gas_used(1, &all[1], &all), 30_000);
    assert_eq!(gas_used(2, &all[2], &all), 50_000);
}

#[test]
fn gas_used_without_previous_receipt_is_zero() {
    let all = block();
    let r = receipt(TxType::Legacy, 200_000, 0);
    assert_eq!(gas_used(9, &r, &all), 0);
}

#[test]
fn logs_before_counts_earlier_receipts_only() {
    let all = block();
    assert_eq!(count_logs_before(&all, 0), 0);
    assert_eq!(count_logs_before(&all, 1), 2);
    assert_eq!(count_logs_before(&all, 2), 3);
    assert_eq!(count_logs_before(&all, 3), 6);
    assert_eq!(count_logs_before(&all, 100), 6);
}

#[test]
fn rpc_logs_are_numbered_from_the_first_index() {
    let logs = vec![log(1, 1), log(2, 0)];
    let m = meta(2);
    let out = rpc_logs(&logs, &m, 3);
    assert_eq!(out.len(), 2);
    assert_eq!(out[0].log_index, Some(3));
    assert_eq!(out[1].log_index, Some(4));
    assert_eq!(out[1].inner.address, [2; 20]);
    assert_eq!(out[0].inner.topics, vec![[1; 32]]);
    assert_eq!(out[0].inner.data, vec![1, 2, 3]);
    assert_eq!(out[0].block_hash, Some([0xbb; 32]));
    assert_eq!(out[0].block_number, Some(17));
    assert_eq!(out[0].block_timestamp, Some(1_700_000_000));
    assert_eq!(out[0].transaction_hash, Some([0xaa; 32]));
    assert_eq!(out[0].transaction_index, Some(2));
    assert!(!out[0].removed);
}

#[test]
fn legacy_effective_gas_price_is_gas_price() {
    let tx = eip155_tx(call_kind());
    assert_eq!(tx.effective_gas_price(Some(1)), 20_000_000_000);
    assert_eq!(tx.effective_gas_price(None), 20_000_000_000);
}

#[test]
fn dynamic_effective_gas_price_follows_eip1559() {
    let mut tx = eip155_tx(call_kind());
    tx.tx_type = TxType::Eip1559;
    tx.gas_price = 100;
    tx.max_priority_fee_per_gas = 10;
    assert_eq!(tx.effective_gas_price(None), 100);
    assert_eq!(tx.effective_gas_price(Some(50)), 60);
    assert_eq!(tx.effective_gas_price(Some(95)), 100);
    assert_eq!(tx.effective_gas_price(Some(200)), 100);
}

#[test]
fn blob_gas_used_counts_blobs_of_blob_transactions() {
    let mut tx = eip155_tx(call_kind());
    assert_eq!(tx.blob_gas_used(), None);
    tx.tx_type = TxType::Eip4844;
    tx.blob_versioned_hashes = vec![[1; 32], [2; 32]];
    assert_eq!(tx.blob_gas_used(), Some(262_144));
}

#[test]
fn signer_of_eip155_example_is_recovered() {
    let tx = eip155_tx(call_kind());
    assert_eq!(tx.recover_signer_unchecked().unwrap(), eip155_sender());
}

#[test]
fn build_receipt_of_call() {
    let all = block();
    let tx = eip155_tx(call_kind());
    let r = build_receipt(&tx, meta(1), &all[1], &all, None, |rwb: ReceiptWithBloom| rwb).unwrap();
    assert_eq!(r.from, eip155_sender());
    assert_eq!(r.to, Some([0x35; 20]));
    assert_eq!(r.contract_address, None);
    assert_eq!(r.gas_used, 30_000);
    assert_eq!(r.effective_gas_price, 20_000_000_000);
    assert_eq!(r.blob_gas_used, None);
    assert_eq!(r.blob_gas_price, None);
    assert_eq!(r.transaction_hash, [0xaa; 32]);
    assert_eq!(r.transaction_index, Some(1));
    assert_eq!(r.block_hash, Some([0xbb; 32]));
    assert_eq!(r.block_number, Some(17));
    assert!(r.inner.receipt.status);
    assert_eq!(r.inner.receipt.cumulative_gas_used, 51_000);
    assert_eq!(r.inner.receipt.logs.len(), 1);
    assert_eq!(r.inner.receipt.logs[0].log_index, Some(2));
}

#[test]
fn build_receipt_of_creation_names_the_created_contract() {
    let all = block();
    let tx = eip155_tx(TxKind::Create);
    let r = build_receipt(&tx, meta(0), &all[0], &all, None, |rwb: ReceiptWithBloom| rwb).unwrap();
    let expected = alloy_primitives::Address::from(eip155_sender()).create(9).into_array();
    assert_eq!(r.contract_address, Some(expected));
    assert_ne!(expected, eip155_sender());
    assert_eq!(r.to, None);
}

#[test]
fn build_receipt_rejects_unrecoverable_signature() {
    let all = block();
    let mut tx = eip155_tx(call_kind());
    tx.signature.r = [0; 32];
    let r = build_receipt(&tx, meta(0), &all[0], &all, None, |rwb: ReceiptWithBloom| rwb);
    assert_eq!(r.err(), Some(EthApiError::InvalidTransactionSignature));
}

#[test]
fn build_receipt_bloom_matches_alloy_bloom_of_the_logs() {
    let all = block();
    let tx = eip155_tx(call_kind());
    let r = build_receipt(&tx, meta(0), &all[0], &all, None, |rwb: ReceiptWithBloom| rwb).unwrap();
    let alloy_logs: Vec<alloy_primitives::Log> = all[0]
        .logs
        .iter()
        .map(|l| {
            alloy_primitives::Log::new_unchecked(
                l.address.into(),
                l.topics.iter().map(|t| alloy_primitives::B256::from(*t)).collect(),
                l.data.clone().into(),
            )
        })
        .collect();
    let expected = alloy_primitives::logs_bloom(alloy_logs.iter()).into_array();
    assert_eq!(r.inner.logs_bloom, expected);
    assert_ne!(r.inner.logs_bloom, [0u8; 256]);
}

fn blob_tx() -> TransactionSigned {
    let mut tx = eip155_tx(call_kind());
    tx.tx_type = TxType::Eip4844;
    tx.gas_price = 100;
    tx.max_priority_fee_per_gas = 3;
    tx.blob_versioned_hashes = vec![[9; 32]];
    tx
}

fn unit_blob_params() -> BlobParams {
    BlobParams {
        target_blob_count: 3,
        max_blob_count: 6,
        update_fraction: 1,
        min_blob_fee: 1,
        max_blobs_per_tx: 6,
        blob_base_cost: 0,
    }
}

#[test]
fn blob_gas_price_of_blob_transaction() {
    let all = block();
    let tx = blob_tx();
    let mut m = meta(2);
    m.excess_blob_gas = Some(2);
    let r = build_receipt(&tx, m, &all[2], &all, Some(unit_blob_params()), |rwb: ReceiptWithBloom| rwb)
        .unwrap();
    // fake_exponential(1, 2, 1) == 6
    assert_eq!(r.blob_gas_price, Some(6));
    assert_eq!(r.blob_gas_used, Some(131_072));
    assert_eq!(r.effective_gas_price, 10);
}

#[test]
fn blob_gas_price_needs_params_and_excess_gas() {
    let all = block();
    let tx = blob_tx();
    let r = build_receipt(&tx, meta(2), &all[2], &all, Some(unit_blob_params()), |rwb: ReceiptWithBloom| rwb)
        .unwrap();
    assert_eq!(r.blob_gas_price, None);
    let mut m = meta(2);
    m.excess_blob_gas = Some(2);
    let r = build_receipt(&tx, m, &all[2], &all, None, |rwb: ReceiptWithBloom| rwb).unwrap();
    assert_eq!(r.blob_gas_price, None);
    assert_eq!(r.blob_gas_used, Some(131_072));
}

#[test]
fn blob_gas_price_absent_for_other_transactions() {
    let all = block();
    let tx = eip155_tx(call_kind());
    let mut m = meta(2);
    m.excess_blob_gas = Some(2);
    let r = build_receipt(&tx, m, &all[2], &all, Some(unit_blob_params()), |rwb: ReceiptWithBloom| rwb)
        .unwrap();
    assert_eq!(r.blob_gas_price, None);
}

#[test]
fn assemble_receipt_uses_the_given_outside_results() {
    let all = block();
    let tx = eip155_tx(call_kind());
    let r = assemble_receipt(
        &tx,
        meta(2),
        &all[2],
        &all,
        [4; 20],
        [5; 256],
        Some([6; 20]),
        Some(77),
        |rwb: ReceiptWithBloom| rwb,
    );
    assert_eq!(r.from, [4; 20]);
    assert_eq!(r.inner.logs_bloom, [5; 256]);
    assert_eq!(r.contract_address, Some([6; 20]));
    assert_eq!(r.blob_gas_price, Some(77));
    assert_eq!(r.gas_used, 50_000);
    let indices: Vec<Option<u64>> = r.inner.receipt.logs.iter().map(|l| l.log_index).collect();
    assert_eq!(indices, vec![Some(3), Some(4), Some(5)]);
}

#[test]
fn eth_builder_wraps_receipt_in_envelope_of_its_type() {
    let all = block();
    let tx = eip155_tx(call_kind());
    let b = EthReceiptBuilder::new(&tx, meta(1), &all[1], &all, None).unwrap();
    let r = b.build();
    match r.inner {
        ReceiptEnvelope::Eip1559(rwb) => assert_eq!(rwb.receipt.cumulative_gas_used, 51_000),
        _ => panic!("wrong envelope"),
    }
    assert_eq!(r.gas_used, 30_000);
}

#[test]
fn eth_strategy_builds_as_the_builder() {
    let all = block();
    let tx = eip155_tx(call_kind());
    let a = EthReceiptBuilderStrategy.build_transaction_receipt(&tx, meta(2), &all[2], &all, None).unwrap();
    let b = EthReceiptBuilder::new(&tx, meta(2), &all[2], &all, None).unwrap().build();
    assert_eq!(a.gas_used, b.gas_used);
    assert_eq!(a.from, b.from);
    assert!(matches!(a.inner, ReceiptEnvelope::Eip4844(_)));
    assert!(matches!(b.inner, ReceiptEnvelope::Eip4844(_)));
}

#[test]
fn unknown_block_is_header_not_found() {
    let all = block();
    let tx = eip155_tx(call_kind());
    let r0 = copy_receipt(&all[0]);
    let r = build_transaction_receipt_in_block(&EthReceiptBuilderStrategy, tx, meta(0), r0, None, None);
    assert_eq!(r.err(), Some(EthApiError::HeaderNotFound([0xbb; 32])));
}

#[test]
fn known_block_builds_the_receipt() {
    let all = block();
    let tx = eip155_tx(call_kind());
    let r0 = copy_receipt(&all[0]);
    let r = build_transaction_receipt_in_block(&EthReceiptBuilderStrategy, tx, meta(0), r0, Some(all), None)
        .unwrap();
    assert_eq!(r.gas_used, 21_000);
    assert!(matches!(r.inner, ReceiptEnvelope::Legacy(_)));
}

#[test]
fn log_indices_of_a_block_are_contiguous_and_unique() {
    let all = block();
    let tx = eip155_tx(call_kind());
    let mut seen: Vec<u64> = Vec::new();
    for i in 0..all.len() {
        let r = build_receipt(&tx, meta(i as u64), &all[i], &all, None, |rwb: ReceiptWithBloom| rwb).unwrap();
        for l in &r.inner.receipt.logs {
            seen.push(l.log_index.unwrap());
        }
    }
    assert_eq!(seen, vec![0, 1, 2, 3, 4, 5]);
}

#[test]
fn gas_used_of_a_block_sums_to_its_cumulative_gas() {
    let all = block();
    let tx = eip155_tx(call_kind());
    let mut total: u64 = 0;
    for i in 0..all.len() {
        let r = build_receipt(&tx, meta(i as u64), &all[i], &all, None, |rwb: ReceiptWithBloom| rwb).unwrap();
        total += r.gas_used;
        assert_eq!(total, all[i].cumulative_gas_used);
    }
}

#[test]
fn receipt_names_to_or_contract_address_never_both() {
    let all = block();
    for kind in [TxKind::Create, call_kind()] {
        let tx = eip155_tx(kind);
        let r = build_receipt(&tx, meta(0), &all[0], &all, None, |rwb: ReceiptWithBloom| rwb).unwrap();
        assert!(r.to.is_some() != r.contract_address.is_some());
    }
}

#[test]
fn provider_hands_out_the_ethereum_strategy() {
    let all = block();
    let tx = eip155_tx(call_kind());
    let strategy = EthReceiptBuilderStrategy;
    let builder = strategy.receipt_builder();
    let r = builder.build_transaction_receipt(&tx, meta(1), &all[1], &all, None).unwrap();
    assert_eq!(r.gas_used, 30_000);
}

#[test]
fn blob_fee_is_computable_on_real_parameters() {
    // Prague: min fee 1, update fraction 5007716
    assert!(blob_fee_computable(1, 5_007_716, 0));
    assert!(blob_fee_computable(1, 5_007_716, 10_000_000));
    assert!(blob_fee_computable(1, 1, 2));
}

#[test]
fn blob_fee_not_computable_where_fake_exponential_overflows() {
    assert!(!blob_fee_computable(u128::MAX, 2, 0));
    assert!(!blob_fee_computable(1, 0, 5));
    assert!(!blob_fee_computable(u128::MAX / 2, 1, 1));
}

#[test]
fn blob_fee_of_prague_block_matches_alloy() {
    let all = block();
    let tx = blob_tx();
    let mut m = meta(2);
    m.excess_blob_gas = Some(10_000_000);
    let params = BlobParams { update_fraction: 5_007_716, ..unit_blob_params() };
    let r = build_receipt(&tx, m, &all[2], &all, Some(params), |rwb: ReceiptWithBloom| rwb).unwrap();
    let expected = alloy_eips::eip4844::fake_exponential(1, 10_000_000, 5_007_716);
    assert_eq!(r.blob_gas_price, Some(expected));
    assert!(expected > 1);
}

#[test]
fn unrecoverable_signer_fails_before_any_arithmetic() {
    // cumulative gas falls from the previous receipt and the blob fee overflows,
    // but the signature is checked first
    let all = block();
    let mut tx = blob_tx();
    tx.signature.r = [0; 32];
    let falling = receipt(TxType::Eip4844, 1_000, 1);
    let mut m = meta(2);
    m.excess_blob_gas = Some(2);
    let params = BlobParams { min_blob_fee: u128::MAX, update_fraction: 2, ..unit_blob_params() };
    let r = build_receipt(&tx, m, &falling, &all, Some(params), |rwb: ReceiptWithBloom| rwb);
    assert_eq!(r.err(), Some(EthApiError::InvalidTransactionSignature));
    let b = EthReceiptBuilder::new(&tx, m, &falling, &all, Some(params));
    assert_eq!(b.err(), Some(EthApiError::InvalidTransactionSignature));
}
