[package]
name = "d2d_host"
version = "0.1.0"
edition = "2021"
publish = false

[dependencies]
direct2d = "*"
lazy_static = "1"
winapi = { version = "0.3", features = ["basetsd", "d2d1", "minwindef", "ntdef", "windef", "windowsx", "winerror", "winuser"] }
