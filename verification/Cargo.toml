[package]
name = "electrobun"
version = "0.1.0"
edition = "2021"
publish = false

[dependencies]
aes-gcm = "0.10"
base64 = "0.22"
sha1 = "0.10"
serde = { version = "1", features = ["derive"] }
serde_json = "1"
memchr = "2"
libc = "0.2"
nix = { version = "0.29", features = ["signal", "fs", "process"] }
once_cell = "1"
ruzstd = "0.7"
tar = "0.4"
dirs = "5"
libloading = "0.8"
windows-sys = { version = "0.59", features = ["Win32_Foundation", "Win32_System_Console", "Win32_System_Threading"] }
