[package]
name = "disk_serial"
version = "0.1.0"
edition = "2021"
publish = false

[dependencies]
winapi = { version = "0.3", features = ["fileapi", "handleapi", "ioapiset", "minwindef", "ntdef", "winbase", "winioctl", "winnt"] }
