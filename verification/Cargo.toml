[package]
name = "window2clear"
version = "0.1.0"
edition = "2021"
publish = false

[dependencies]
winapi = { version = "0.3", features = ["winuser", "shellapi", "commctrl", "libloaderapi", "sysinfoapi", "winbase", "minwindef", "windef"] }
