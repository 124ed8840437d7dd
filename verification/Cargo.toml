[package]
name = "slick"
version = "0.1.0"
edition = "2021"
publish = false

[dependencies]
clap = "3.2"
compound_duration = "1"
git2 = { version = "*", default-features = false }
serde = { version = "1", features = ["derive"] }
serde_json = "1"
tokio = { version = "1", features = ["rt", "macros", "process", "time"] }
uzers = "*"
