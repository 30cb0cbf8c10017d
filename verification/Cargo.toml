[package]
name = "enclave_secrets"
version = "0.1.0"
edition = "2021"
publish = false

[dependencies]
ring-compat = "0.8"
zeroize = "1"
argon2 = { version = "0.4", features = ["std"] }
password-hash = { version = "0.4", features = ["std"] }
thiserror = "1"
anyhow = "1"
clap = { version = "4", features = ["derive"] }
serde_json = "1"
blake3 = "1"
pyo3 = "0.18"
dotenvy_macro = "0.15"
sgx_types = "1.1"
sgx_urts = "1.1"
sgx_rand = "1.1"
