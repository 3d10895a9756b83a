[package]
name = "manaba"
version = "0.1.0"
edition = "2021"
publish = false

[dependencies]
scraper = "*"
chrono = { version = "*", default-features = false, features = ["clock"] }
colored_text = "*"
reqwest = { version = "*", default-features = false }
tokio = { version = "*", features = ["rt-multi-thread", "macros", "fs", "io-util"] }
clap = { version = "*", features = ["derive"] }
dialoguer = "*"
dirs = "*"
opener = "*"
serde = { version = "*", features = ["derive"] }
thiserror = "*"
toml = "*"
