[package]
name = "todo_list"
version = "0.1.0"
edition = "2021"
publish = false

[dependencies]
clap = "=4.6.7"
colored = "=3.1.1"
rusqlite = { version = "=0.40.2", features = ["bundled", "fallible_uint"] }

[dev-dependencies]
tempfile = "=3.27.0"
