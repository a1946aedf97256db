[package]
name = "did_ckb_ts"
version = "0.1.0"
edition = "2021"
publish = false

[dependencies]
cbor4ii = { version = "=1.2.4", default-features = false, features = ["use_alloc"] }
ckb-std = { version = "=1.1.0", features = ["type-id"] }
molecule = "=0.9.2"
