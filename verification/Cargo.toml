[package]
name = "mouse_speed_profiler"
version = "0.1.0"
edition = "2021"
publish = false

[dependencies]
env_logger = "*"
log = "*"
serde = { version = "*", features = ["derive"] }
toml = "*"
windows = { version = "*", features = ["Win32_Foundation", "Win32_System_Threading", "Win32_UI_Accessibility", "Win32_UI_WindowsAndMessaging"] }
