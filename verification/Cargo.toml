[package]
name = "capstone_wallet"
version = "0.1.0"
edition = "2021"
publish = false

[dependencies]
bdk_wallet = { version = "*", features = ["rusqlite", "keys-bip39"] }
bitcoincore-rpc = "*"
bdk_bitcoind_rpc = "*"
clap = { version = "4", features = ["derive"] }
dotenvy = "*"
thiserror = "*"
