[package]
name = "zk_mint_auth"
version = "0.1.0"
edition = "2021"
publish = false

[dependencies]
ark-bn254 = "*"
ark-ec = "*"
ark-ff = "*"
ark-groth16 = "*"
ark-r1cs-std = "*"
ark-relations = "*"
ark-serialize = "*"
ark-snark = "*"
ark-std = "*"
rand = "0.8"
anyhow = "*"
