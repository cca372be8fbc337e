[package]
name = "roblox_install"
version = "1.0.0"
edition = "2021"
publish = false

[dependencies]
dirs = "*"
thiserror = "1.0"
winreg = "*"
