[package]
name = "webview2"
version = "0.1.0"
edition = "2021"
publish = false

[dependencies]
winsafe = { version = "*", features = ["advapi", "comctl", "gui", "kernel", "user"] }
