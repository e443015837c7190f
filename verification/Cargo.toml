[package]
name = "fundverse"
version = "0.1.0"
edition = "2021"
publish = false

[dependencies]
candid = "*"
ic-cdk = "*"
ic-cdk-macros = "*"
ic-stable-structures = "*"
serde = { version = "*", features = ["derive"] }
