[package]
name = "user_idle"
version = "0.5.0"
edition = "2021"
publish = false

[dependencies]
dbus = { version = "0.9", features = ["vendored"] }
x11 = { version = "2", features = ["xlib", "xss"] }
winapi = { version = "0.3", features = ["sysinfoapi", "winuser"] }
mach = "0.3"
IOKit-sys = "0.1"
CoreFoundation-sys = "0.1"
