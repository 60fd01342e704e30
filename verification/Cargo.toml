[package]
name = "thumbvol"
version = "0.1.0"
edition = "2021"
publish = false

[dependencies]
anyhow = "1"
evdev = "0.13"
serde = { version = "1", features = ["derive"] }
toml = "0.8"
winreg = "0.52"
windows = { version = "0.58", features = ["Win32_Foundation", "Win32_Graphics_Gdi", "Win32_System_LibraryLoader", "Win32_UI_Input_KeyboardAndMouse", "Win32_UI_Shell", "Win32_UI_WindowsAndMessaging"] }
