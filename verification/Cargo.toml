[package]
name = "kuma_agent"
version = "5.0.0"
edition = "2021"
publish = false

[dependencies]
reqwest = { version = "*", default-features = false }
tokio = { version = "1", features = ["full"] }
serde = { version = "1", features = ["derive"] }
serde_json = "1"
toml = "*"
log = "0.4"
fern = "*"
chrono = "*"
dotenv = "*"
log-panics = "*"
winreg = "*"
tao = "*"
wry = "*"
tray-icon = "*"
