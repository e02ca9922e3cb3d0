[package]
name = "tradium"
version = "0.1.0"
edition = "2021"
publish = false

[dependencies]
anchor-lang = "0.30.1"
anchor-spl = "0.30.1"
spl-token = { version = "4.0", features = ["no-entrypoint"] }
spl-token-2022 = { version = "3.0", features = ["no-entrypoint"] }
