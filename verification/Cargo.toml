[package]
name = "fedquery"
version = "0.1.0"
edition = "2021"
publish = false

[dependencies]
atty = "0.2"
clap = { version = "4", features = ["derive"] }
polars = { version = "0.38", features = ["dtype-decimal", "dtype-time"] }
prql-compiler = "*"
rusqlite = { version = "0.31", features = ["bundled", "backup"] }
serde_json = "1"
