[package]
name = "clipboard_watch"
version = "0.1.0"
edition = "2021"
publish = false

[dependencies]
base64 = "*"
clipboard-rs = "*"
napi = { version = "*", features = ["napi4"] }
napi-derive = "*"
