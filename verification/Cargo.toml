[package]
name = "clipse"
version = "0.1.0"
edition = "2021"
publish = false

[dependencies]
anyhow = "1"
chrono = "0.4"
clap = { version = "4", features = ["derive"] }
crossbeam-channel = "0.5"
daemonize = "0.5"
dirs = "*"
global-hotkey = "*"
nix = { version = "*", features = ["signal"] }
serde = { version = "1", features = ["derive"] }
serde_json = "1"
signal-hook = "0.3"
sysinfo = "*"
tempfile = "3"
winit = "0.30"
