[package]
name = "tl_cli"
version = "0.1.0"
edition = "2021"
publish = false

[dependencies]
anyhow = "1"
async-stream = "0.3"
bytes = "1"
clap = { version = "4", features = ["derive"] }
dirs = "*"
exitcode = "1"
futures-util = "0.3"
hex = "0.4"
indicatif = "*"
inquire = { version = "*", features = ["editor"] }
owo-colors = "4"
reqwest = { version = "0.12", default-features = false, features = ["json", "stream", "rustls-tls"] }
rusqlite = { version = "*", features = ["bundled"] }
serde = { version = "1", features = ["derive"] }
serde_json = "1"
sha2 = "0.10"
tokio = { version = "1", features = ["rt-multi-thread", "macros"] }
toml = "*"
