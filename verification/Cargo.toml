[package]
name = "copy_translator"
version = "0.1.0"
edition = "2021"
publish = false

[dependencies]
cli-clipboard = "=0.4.0"
deepl = "=0.2.1"
enigo = "=0.0.14"
ico = "=0.3.0"
tauri-hotkey = "=0.1.2"
