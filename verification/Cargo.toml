[package]
name = "yinlang"
version = "0.1.0"
edition = "2021"
publish = false

[dependencies]
base64 = "=0.22.1"
rustfft = "=6.4.1"
rfd = { version = "=0.15.4", default-features = false, features = ["xdg-portal", "async-std"] }
objc2 = "=0.5.2"
windows = { version = "=0.58.0", features = ["Win32_Foundation", "Win32_Media_Audio", "Win32_System_Com", "Win32_UI_WindowsAndMessaging"] }
