[package]
name = "windows_diagnostics"
version = "0.1.0"
edition = "2021"
publish = false

[dependencies]
clap = { version = "4", features = ["derive"] }
winreg = "0.52"
image = { version = "0.25", default-features = false, features = ["png"] }
