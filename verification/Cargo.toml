[package]
name = "poc_consensus"
version = "0.1.0"
edition = "2021"
publish = false

[dependencies]
async-trait = "0.1"
derive_more = { version = "0.99", default-features = false, features = ["display"] }
futures = "0.3"
log = "0.4"
parity-scale-codec = "=3.7.5"
parking_lot = "0.12"
ring = "=0.17.14"
schnorrkel = "=0.9.1"
sp-consensus-slots = "=0.25.0"
sp-consensus-vrf = "=0.25.0"
sp-core = "=20.0.0"
sp-inherents = "=19.0.0"
sp-runtime = "=23.0.0"
sp-timestamp = "=19.0.0"
