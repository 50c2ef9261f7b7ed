[package]
name = "rsbongo"
version = "0.1.0"
edition = "2021"
publish = false

[dependencies]
winit = "0.30"
softbuffer = "0.4"
evdev = "0.12"
crossbeam-channel = "0.5"
raw-window-handle = "0.6"
x11rb = { version = "0.13", features = ["shape"] }
serde = { version = "1", features = ["derive"] }
toml = "0.8"
windows-sys = { version = "0.59", features = ["Win32_Foundation", "Win32_UI_WindowsAndMessaging"] }
