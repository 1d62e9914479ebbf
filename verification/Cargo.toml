[package]
name = "obs_capture"
version = "0.1.0"
edition = "2021"
publish = false

[dependencies]
libobs = "*"
libobs-wrapper = "*"
libobs-sources = "*"
libobs-window-helper = "*"
tokio = { version = "1", features = ["macros", "rt-multi-thread", "time"] }
env_logger = "*"
vsprintf = "*"
windows = { version = "*", features = ["Win32_System_WinRT"] }
