[package]
name = "tradio"
version = "0.1.0"
edition = "2021"
publish = false

[dependencies]
anyhow = "1"
clap = { version = "4", features = ["derive"] }
crossterm = "0.25"
dirs = "5"
futures = "0.3"
log = "0.4"
reqwest = { version = "0.11", default-features = false, features = ["blocking", "json", "rustls-tls"] }
serde = { version = "1", features = ["derive"] }
simplelog = "0.12"
sqlx = { version = "0.7", default-features = false, features = ["runtime-tokio", "tls-rustls", "sqlite", "chrono"] }
symphonia = "0.5"
tokio = { version = "1", features = ["macros", "rt-multi-thread"] }
tui = "0.19"
