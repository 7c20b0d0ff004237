[package]
name = "recli"
version = "0.1.0"
edition = "2021"
publish = false

[dependencies]
anyhow = "*"
chrono = "*"
clap = { version = "*", features = ["derive"] }
colored = "*"
comfy-table = "*"
dotenv = "*"
rand = "*"
serde = { version = "*", features = ["derive"] }
serde_derive = "*"
sqlx = { version = "*", default-features = false, features = ["runtime-tokio", "sqlite", "chrono", "migrate"] }
tokio = { version = "*", features = ["rt", "macros"] }
toml = "*"
