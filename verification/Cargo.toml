[package]
name = "ari"
version = "0.1.0"
edition = "2021"
publish = false

[dependencies]
libc = "0.2"
num-traits = "0.2"
parking_lot = "0.12"
rand = "0.8"
ring = "0.17"
unicode-width = "0.1"
winapi = { version = "0.3", features = ["consoleapi", "dwmapi", "errhandlingapi", "fileapi", "guiddef", "handleapi", "libloaderapi", "minwinbase", "minwindef", "ntdef", "processenv", "processthreadsapi", "sysinfoapi", "unknwnbase", "winbase", "wincon", "winerror", "wingdi", "winnt"] }
