[package]
name = "adaptive_theme"
version = "0.1.0"
edition = "2021"
publish = false

[dependencies]
cocoa = "=0.27.0"
gtk = "=0.19.0"
objc = "=0.2.7"
windows = { version = "=0.58.0", features = ["Win32_Foundation", "Win32_Graphics_Dwm"] }
