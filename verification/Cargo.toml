[package]
name = "poseidon_bn254"
version = "0.1.0"
edition = "2021"
publish = false

[dependencies]
halo2curves = "=0.1.0"

[dev-dependencies]
light-poseidon = "=0.2.0"
ark-bn254 = "=0.4.0"
ark-ff = "=0.4.2"
