[package]
name = "usn_journal_rs"
version = "0.1.0"
edition = "2021"
publish = false

[dependencies]
lru = "=0.18.5"
chrono = "=0.4.45"
thiserror = "=2.0.21"
log = "=0.4.34"
windows = { version = "=0.58.0", features = [
    "Win32_Foundation",
    "Win32_Storage_FileSystem",
    "Win32_System_IO",
    "Win32_System_Ioctl",
    "Win32_Security",
    "Win32_System_Threading",
] }
