[package]
name = "plonkish"
version = "0.1.0"
edition = "2021"
publish = false

[dependencies]
halo2_proofs = { version = "=0.3.5", features = ["dev-graph"] }
plotters = "=0.3.7"
ff = "=0.13.1"
