[package]
name = "serial_rs"
version = "0.1.0"
edition = "2021"
publish = false

[dependencies]
glob = "0.3"
libc = "0.2"
nix = "0.26"
winapi = { version = "0.3", features = ["cguid", "commapi", "errhandlingapi", "fileapi", "guiddef", "handleapi", "ioapiset", "minwinbase", "minwindef", "ntdef", "processthreadsapi", "setupapi", "synchapi", "winbase", "winerror", "winnt", "winreg"] }
