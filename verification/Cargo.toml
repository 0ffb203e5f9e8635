[package]
name = "desktop_layer"
version = "0.1.0"
edition = "2021"
publish = false

[dependencies]
sha2 = "0.10"
raw-window-handle = "0.6"
windows = { version = "0.52", features = ["Win32_Foundation", "Win32_UI_WindowsAndMessaging"] }
