[package]
name = "session_windows"
version = "0.1.0"
edition = "2021"
publish = false

[dependencies]
log = "=0.4.34"
serde = { version = "=1.0.229", features = ["derive"] }
tauri = { version = "=2.12.5", default-features = false, features = ["wry"] }
urlencoding = "=2.1.3"
windows = { version = "=0.62.2", features = ["Win32_Foundation", "Win32_Graphics_Dwm"] }
