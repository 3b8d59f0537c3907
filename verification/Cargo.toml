[package]
name = "tokio-osinterval"
version = "1.0.0"
edition = "2021"
rust-version = "1.81"
publish = false

[dependencies]
libc = "0.2"
tokio = { version = "1", features = ["net", "time"] }
windows-sys = { version = "0.59", features = ["Win32_Foundation", "Win32_Security", "Win32_System_Threading"] }
