[package]
name = "wallpaper_refresh"
version = "0.1.0"
edition = "2021"
publish = false

[dependencies]
uuid = { version = "1", features = ["v4"] }
minreq = { version = "2", features = ["https"] }
serde = { version = "1", features = ["derive"] }
serde_json = "1"
log = "0.4"
open = "5"
tauri = { version = "2", default-features = false, features = ["tray-icon"] }
winapi = { version = "0.3", features = ["winuser", "minwindef"] }
