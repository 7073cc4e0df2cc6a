[package]
name = "file_lock_checker"
version = "0.1.0"
edition = "2021"
publish = false

[dependencies]
chrono = "0.4"
winapi = { version = "0.3", features = ["handleapi", "minwindef", "processthreadsapi", "psapi", "restartmanager", "winerror", "winnt", "winreg"] }
