[package]
name = "compat_gate"
version = "0.1.0"
edition = "2021"
publish = false

[dependencies]
web-view = "0.7"
winapi = { version = "0.3", features = ["libloaderapi", "minwindef", "ntdef", "sysinfoapi", "winnt", "winuser"] }
