[package]
name = "xsql"
version = "0.2.0"
edition = "2021"
publish = false

[dependencies]
sqlparser = "=0.43.1"
serde = { version = "=1.0.229", features = ["derive"] }
serde_json = "1"
clap = { version = "=4.6.7", features = ["derive"] }
crossterm = "=0.28.1"
ratatui = "=0.29.0"
