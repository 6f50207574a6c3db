[package]
name = "windows_service"
version = "0.1.0"
edition = "2021"
publish = false

[dependencies]
widestring = "1"
windows-sys = { version = "0.59", features = ["Win32_Foundation", "Win32_Security", "Win32_System_Services"] }
