[package]
name = "aichat"
version = "0.1.0"
edition = "2021"
publish = false

[dependencies]
anyhow = "1"
async-trait = "0.1"
crossbeam = "0.8"
crossterm = "0.27"
reqwest = { version = "0.11", default-features = false, features = ["json"] }
serde = { version = "1", features = ["derive"] }
serde_json = "1"
textwrap = "0.16"
tokio = { version = "1", features = ["rt", "time", "macros", "signal"] }
