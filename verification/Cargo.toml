[package]
name = "sqlite_conn"
version = "0.1.0"
edition = "2021"
publish = false

[dependencies]
rusqlite = { version = "*", features = ["bundled"] }
libsqlite3-sys = { version = "*", features = ["bundled"] }
