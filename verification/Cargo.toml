[package]
name = "sysmon"
version = "0.1.0"
edition = "2021"
publish = false

[dependencies]
chrono = "=0.4.45"
notify-rust = "4"
rusqlite = "=0.32.1"
serde = { version = "=1.0.229", features = ["derive"] }
single-instance = "=0.3.3"
sysinfo = { version = "=0.32.1", default-features = false, features = ["system", "network"] }
toml = "=0.8.23"
winreg = "0.52"
