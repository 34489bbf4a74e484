[package]
name = "app_bootstrap"
version = "0.1.0"
edition = "2021"
publish = false

[dependencies]
log = "0.4"
tauri = { version = "2", default-features = false }
tauri-plugin-deep-link = { version = "2", default-features = false }
tauri-plugin-global-shortcut = { version = "2", default-features = false }
tauri-plugin-prevent-default = { version = "*", default-features = false }
