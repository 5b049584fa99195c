[package]
name = "locked_nonce_manager"
version = "0.1.0"
edition = "2021"
publish = false

[dependencies]
async-trait = "*"
ethers-core = { version = "*", default-features = false }
ethers-providers = { version = "*", default-features = false }
thiserror = "*"
tokio = { version = "*", default-features = false, features = ["sync"] }
