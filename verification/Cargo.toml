[package]
name = "community_loan_pool"
version = "0.1.0"
edition = "2021"
publish = false

[dependencies]
bounded-collections = { version = "*", default-features = false }
parity-scale-codec = { version = "*", default-features = false }
sp-arithmetic = { version = "*", default-features = false }
