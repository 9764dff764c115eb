[package]
name = "markdown_test_report"
version = "0.1.0"
edition = "2021"
publish = false

[dependencies]
serde_json = "*"
askama_escape = "*"
humantime = "*"
anyhow = "*"
chrono = "*"
clap = { version = "*", features = ["derive"] }
git2 = "*"
log = "*"
simplelog = "*"
