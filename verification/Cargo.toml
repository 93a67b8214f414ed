[package]
name = "tfc"
version = "0.1.0"
edition = "2021"
publish = false

[dependencies]
core-graphics = { version = "=0.22.3", features = ["highsierra"] }
winapi = { version = "=0.3.9", features = ["errhandlingapi", "winbase", "windef", "winuser"] }
