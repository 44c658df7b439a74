[package]
name = "gw3"
version = "0.0.1"
edition = "2021"
publish = false

[dependencies]
url = "2"
serde_json = "1"
reqwest = "0.12"
serde = { version = "1", features = ["derive"] }
clap = { version = "4", features = ["derive", "env"] }
rmcp = { version = "*", features = ["server", "transport-io", "macros"] }
schemars = "*"
thiserror = "2"
tokio = { version = "1", features = ["macros", "rt-multi-thread", "io-std"] }
