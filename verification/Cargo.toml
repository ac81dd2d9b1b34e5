[package]
name = "atticus"
version = "0.1.0"
edition = "2021"
publish = false

[dependencies]
tokio = { version = "*", features = ["sync", "rt"] }
async-trait = "*"
thiserror = "*"
