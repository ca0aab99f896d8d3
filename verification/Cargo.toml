[package]
name = "esponquen"
version = "0.1.0"
edition = "2021"
publish = false

[dependencies]
rdev = { version = "=0.5.3", features = ["unstable_grab"] }
sherpa-rs = "0.6"
tray-icon = { version = "=0.19.3", default-features = false }
winapi = { version = "=0.3.9", features = ["consoleapi", "wincon"] }
winit = { version = "0.29", default-features = false, features = ["rwh_06", "x11"] }
