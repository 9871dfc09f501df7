[package]
name = "btc_units"
version = "0.1.0"
edition = "2021"
publish = false

[dependencies]
sha2 = "0.10"
ripemd = "0.1"
bs58 = { version = "0.5", features = ["check"] }

[dev-dependencies]
hex = "0.4"
