[package]
name = "account_engine"
version = "0.1.0"
edition = "2021"
publish = false

[dependencies]
serde = { version = "=1.0.229", features = ["derive"] }
async-trait = "=0.1.92"
cqrs-es = "=0.4.12"
