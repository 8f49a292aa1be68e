[package]
name = "omniget"
version = "0.5.0"
edition = "2021"
publish = false

[dependencies]
url = "2"
regex = "1"
sanitize-filename = "*"
serde = { version = "1", features = ["derive"] }
serde_json = "1"
anyhow = "1"
async-trait = "0.1"
chrono = "0.4"
clap = { version = "4", features = ["derive"] }
colored = "*"
dirs = "*"
indicatif = "*"
open = "*"
reqwest = { version = "0.12", default-features = false, features = ["cookies", "json"] }
tokio = { version = "1", features = ["full"] }
tokio-util = "0.7"
tracing = "0.1"
which = "*"
