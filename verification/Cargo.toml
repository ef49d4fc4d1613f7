[package]
name = "device_query"
version = "0.1.0"
edition = "2021"
publish = false

[dependencies]
macos-accessibility-client = "0.0.1"
readkey = "*"
readmouse = "*"
windows = { version = "0.48", features = ["Win32_Foundation", "Win32_UI_Input_KeyboardAndMouse", "Win32_UI_WindowsAndMessaging"] }
