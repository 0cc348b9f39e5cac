[package]
name = "bank_account"
version = "0.1.0"
edition = "2021"
publish = false

[dependencies]
async-trait = "=0.1.92"
cqrs-es = "=0.4.12"
serde = { version = "=1.0.229", features = ["derive"] }
