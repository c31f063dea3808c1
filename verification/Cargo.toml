[package]
name = "vgrl_launcher"
version = "0.1.0"
edition = "2021"
publish = false

[dependencies]
clap = { version = "4", features = ["derive"] }
winapi = { version = "0.3", features = ["minwindef", "ntdef", "libloaderapi", "minwinbase", "processthreadsapi", "winbase", "errhandlingapi"] }
