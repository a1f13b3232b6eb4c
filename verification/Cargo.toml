[package]
name = "desktop_constants"
version = "0.1.0"
edition = "2021"
publish = false

[dependencies]
tauri-plugin-window-state = "2"
