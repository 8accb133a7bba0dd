# bera_receipt

Builds the RPC receipt of a mined Ethereum transaction from the transaction, its
stored receipt, the receipts of its block and the block's blob parameters, with the
behaviour proved in Verus.

- `src/types.rs`: transactions, stored receipts, block context and the RPC receipt.
- `src/transaction.rs`: what a receipt reads from a transaction (fees, blob gas, signer).
- `src/blob.rs`: EIP-4844's `fake_exponential` and the inputs on which it is defined.
- `src/receipt.rs`: the receipt builder (`build_receipt`) and its specification.
- `src/builder.rs`: the strategy traits, the Ethereum strategy and `EthReceiptBuilder`.
- `src/laws.rs`: properties of the receipts of one block taken together.
- `src/external.rs`: the trusted calls into alloy (signer recovery, contract
  addresses, log blooms, blob fees, effective gas prices).
- `app/lib.rs`: conversions between alloy's types and the library's.
