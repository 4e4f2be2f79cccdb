[package]
name = "hotkey_transfer"
version = "0.1.0"
edition = "2021"
publish = false

[dependencies]
anyhow = "1"
clap = { version = "4", features = ["derive"] }
global-hotkey = "*"
local-ip-address = "*"
rfd = { version = "*", default-features = false, features = ["xdg-portal", "tokio"] }
tokio = { version = "1", features = ["io-util", "macros", "net", "rt-multi-thread", "sync", "time"] }
