[package]
name = "bootstrap_sequencer"
version = "0.1.0"
edition = "2021"
publish = false

[dependencies]
log = { version = "*", default-features = false }
tauri = { version = "*", default-features = false }
tauri-plugin-fs = { version = "*", default-features = false }
tauri-plugin-os = { version = "*", default-features = false }
