[package]
name = "helix_bench"
version = "0.1.0"
edition = "2021"
publish = false

[dependencies]
uuid = "*"
anyhow = "*"
clap = { version = "*", features = ["derive"] }
indicatif = "*"
rand = "*"
reqwest = { version = "*", default-features = false, features = ["json"] }
serde_json = "*"
tokio = { version = "*", features = ["rt", "macros"] }
