[package]
name = "multi_proof"
version = "0.1.0"
edition = "2021"
publish = false

[dependencies]
bellperson = "=0.27.0"
blstrs = "=0.7.1"
pairing = "=0.23.0"
rayon = "=1.12.0"

[dev-dependencies]
group = "=0.13.0"
