[package]
name = "safe_crypto"
version = "0.1.0"
edition = "2021"
publish = false

[dependencies]
dryoc = "=2.0.0"
maidsafe_utilities = "=0.18.0"
serde = "=1.0.229"
