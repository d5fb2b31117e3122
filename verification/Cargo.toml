[package]
name = "quiz_store"
version = "0.1.0"
edition = "2021"
publish = false

[dependencies]
candid = "=0.10.39"
ic-cdk = "=0.12.3"
ic-stable-structures = "=0.5.6"
serde = { version = "=1.0.229", features = ["derive"] }
validator = { version = "=0.16.1", features = ["derive"] }
