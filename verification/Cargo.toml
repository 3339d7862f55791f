[package]
name = "focus_governor"
version = "0.1.0"
edition = "2021"
publish = false

[dependencies]
nix = "0.26"
sysinfo = { version = "0.29", default-features = false }
tokio = { version = "1", features = ["macros", "rt"] }
tokio-i3ipc = "*"
tokio-stream = "0.1"
