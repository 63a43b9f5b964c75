[package]
name = "bhp"
version = "0.1.0"
edition = "2021"
publish = false

[dependencies]
snarkvm-curves = "=4.6.4"
snarkvm-fields = "=4.6.4"
snarkvm-utilities = "=4.6.4"
blake2s_simd = "=1.0.5"
once_cell = "=1.21.4"
anyhow = "=1.0.104"

[dev-dependencies]
rand = "=0.8.8"
snarkvm-console-algorithms = "=4.6.4"
snarkvm-console-types = "=4.6.4"
