[package]
name = "executor"
version = "0.1.0"
edition = "2021"
publish = false

[dependencies]
alloy-primitives = { version = "*", default-features = false, features = ["std"] }
alloy-rpc-types-engine = { version = "*", default-features = false, features = ["std"] }
commonware-cryptography = { version = "*", default-features = false, features = ["std"] }
commonware-utils = { version = "*", default-features = false, features = ["std"] }
eyre = "*"
futures = "*"
prometheus-client = "*"
tokio = { version = "*", features = ["macros", "sync"] }
tracing = "*"
