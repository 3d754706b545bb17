[package]
name = "lnp_types"
version = "0.1.0"
edition = "2021"
publish = false

[dependencies]
amplify = "=3.14.2"
bitcoin = "=0.26.2"
descriptor-wallet = { version = "=0.4.1", features = ["keygen"] }
lightning_encoding = "=0.3.11"
lnpbp = "=0.4.0"
strict_encoding = "=1.3.0"
