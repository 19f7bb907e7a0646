[package]
name = "select_stream"
version = "0.1.0"
edition = "2021"
publish = false

[dependencies]
clipboard = "0.5"
enigo = "0.0.14"
winapi = { version = "0.3", features = ["winuser"] }
