[package]
name = "ironfish_zkp"
version = "0.1.0"
edition = "2021"
publish = false

[dependencies]
ark-ec = "*"
ark-ed-on-bls12-381 = "*"
ark-ff = "*"
ark-r1cs-std = "*"
ark-relations = "*"
ark-std = "*"
