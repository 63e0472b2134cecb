[package]
name = "ncn_epoch"
version = "0.1.0"
edition = "2021"
publish = false

[dependencies]
solana-program = "=2.1.16"
solana-sdk = "=2.1.16"
solana-metrics = "=2.1.16"
jito-bytemuck = "=0.0.5"
jito-jsm-core = "=0.0.5"
jito-restaking-core = "=0.0.5"
anyhow = "=1.0.104"
log = "=0.4.35"
