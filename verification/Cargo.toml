[package]
name = "unlink_probe"
version = "0.1.0"
edition = "2021"
publish = false

[dependencies]
rusqlite = { version = "=0.40.2", features = ["bundled", "trace"] }
colored = "=3.1.1"
