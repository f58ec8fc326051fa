[package]
name = "qwx"
version = "0.1.0"
edition = "2021"
publish = false

[dependencies]
anyhow = "1"
chrono = "0.4"
chrono-tz = "*"
clap = { version = "4", features = ["derive"] }
directories = "*"
indicatif = "*"
open-meteo-rs = "*"
regex = "1"
reqwest = { version = "*", features = ["json"] }
serde = { version = "1", features = ["derive"] }
serde_json = "1"
tokio = { version = "1", features = ["macros", "rt-multi-thread", "time"] }
toml = "*"
