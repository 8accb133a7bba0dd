[package]
name = "bera_receipt"
version = "0.1.0"
edition = "2021"
publish = false

[dependencies]
alloy-primitives = { version = "=1.7.3", features = ["k256"] }
alloy-consensus = { version = "=1.8.3", features = ["k256"] }
alloy-eips = "=1.8.3"
alloy-rpc-types-eth = "=1.8.3"
