[package]
name = "frontrunner_bot"
version = "0.1.0"
edition = "2021"
publish = false

[dependencies]
hex = "=0.4.3"
alloy = { version = "=2.5.0", default-features = false, features = ["reqwest", "providers", "provider-http", "signer-local", "network", "rpc-types"] }
tokio = { version = "=1.53.2", features = ["rt", "macros", "time"] }
