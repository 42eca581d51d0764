[package]
name = "overcooked"
version = "0.1.0"
edition = "2021"
publish = false

[dependencies]
async-trait = "*"
thiserror = "*"
tokio = { version = "*", default-features = false, features = ["sync"] }
