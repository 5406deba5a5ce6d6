[package]
name = "fusionauth_bootstrap"
version = "0.1.0"
edition = "2021"
publish = false

[dependencies]
fusionauth-rust-client = "*"
knus = "*"
serde_json = "*"
thiserror = "*"
tokio = { version = "*", features = ["macros", "rt-multi-thread"] }
