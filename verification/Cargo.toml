[package]
name = "sqlk"
version = "0.1.0"
edition = "2021"
publish = false

[dependencies]
anyhow = "1"
async-trait = "0.1"
chrono = "0.4"
clap = { version = "4", features = ["derive"] }
cli-clipboard = "0.4"
crossterm = "0.28"
dirs = "5"
dotenv = "0.15"
rand = "0.9"
ratatui = "0.29"
regex = "1"
serde = { version = "1", features = ["derive"] }
sqlx = { version = "0.8", default-features = false, features = ["postgres", "runtime-tokio", "chrono"] }
tokio = { version = "1", features = ["full"] }
toml = "0.8"
unicode-width = "0.2"
