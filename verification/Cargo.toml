[package]
name = "windows_dll"
version = "0.1.0"
edition = "2021"
publish = false

[dependencies]
proc-macro2 = "*"
quote = "*"
syn = { version = "*", features = ["full"] }
winapi = { version = "*", features = ["libloaderapi", "minwindef", "winnt", "basetsd"] }
