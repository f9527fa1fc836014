[package]
name = "usb_disk_remover"
version = "1.0.0"
edition = "2021"
publish = false

[dependencies]
serde = { version = "=1.0.229", features = ["derive"] }
serde_json = "=1.0.154"
raw-window-handle = "=0.6.2"
slint = { version = "=1.18.1", default-features = false, features = ["std", "compat-1-2"] }
windows = { version = "=0.58.0", features = ["Win32_Foundation", "Win32_System_Registry", "Win32_System_Threading", "Win32_UI_WindowsAndMessaging", "Win32_Graphics_Dwm"] }
