[package]
name = "sql_interface"
version = "0.1.0"
edition = "2021"
publish = false

[dependencies]
rusqlite = { version = "*", features = ["bundled"] }
lettre = { version = "*", default-features = false }
chrono = { version = "*" }
