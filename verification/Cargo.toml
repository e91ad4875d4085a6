[package]
name = "power_pledge"
version = "0.1.0"
edition = "2021"
publish = false

[dependencies]
anyhow = "=1.0.104"
cid = "=0.11.3"
frc42_dispatch = "=11.0.0"
fvm_ipld_bitfield = "=0.7.2"
fvm_ipld_blockstore = "=0.3.2"
fvm_ipld_encoding = "=0.5.4"
fvm_shared = "=4.8.4"
lazy_static = "=1.5.1"
num-derive = "=0.4.2"
num-traits = "=0.2.19"
regex = "=1.13.1"
serde = { version = "=1.0.229", features = ["derive"] }

[dev-dependencies]
blake2b_simd = "=1.0.5"
