[package]
name = "amect"
version = "0.1.0"
edition = "2021"
publish = false

[dependencies]
anyhow = "1"
clap = { version = "4", features = ["derive"] }
dirs = "5"
image = { version = "0.24", default-features = false, features = ["png", "jpeg", "bmp"] }
inquire = "0.6"
native-dialog = "0.6"
widestring = "1"
windows-sys = { version = "0.48", features = ["Win32_Foundation", "Win32_NetworkManagement_NetManagement", "Win32_System_WindowsProgramming", "Win32_UI_Shell"] }
winreg = "0.50"
