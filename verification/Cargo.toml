[package]
name = "nfd"
version = "0.1.0"
edition = "2021"
publish = false

[dependencies]
thiserror = "=2.0.21"
winapi = { version = "=0.3.9", features = ["combaseapi", "errhandlingapi", "fileapi", "guiddef", "minwindef", "ntdef", "shellscalingapi", "shobjidl", "shobjidl_core", "shtypes", "windef", "winerror", "impl-default"] }
