[package]
name = "cp_cli"
version = "0.1.0"
edition = "2021"
publish = false

[dependencies]
scraper = "*"
clap = { version = "*", features = ["derive"] }
colored = "*"
dirs = "*"
