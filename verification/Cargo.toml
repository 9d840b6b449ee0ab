[package]
name = "provision"
version = "0.1.0"
edition = "2021"
publish = false

[dependencies]
async-trait = "*"
futures-util = "*"
indicatif = "*"
log = "*"
serde = { version = "*", features = ["derive"] }
tokio = { version = "*", features = ["rt", "rt-multi-thread", "sync", "macros"] }
