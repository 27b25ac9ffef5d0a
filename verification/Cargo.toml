[package]
name = "seq_pnet"
version = "0.1.0"
edition = "2021"
publish = false

[dependencies]
pnets = "=0.1.3"
indexed_vec = "=1.2.1"
