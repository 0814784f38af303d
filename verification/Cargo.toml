[package]
name = "vibe"
version = "0.1.0"
edition = "2021"
publish = false

[dependencies]
csscolorparser = "0.6"
neon = { version = "0.10", default-features = false, features = ["napi-6"] }
once_cell = "1"
windows-sys = { version = "0.36", features = ["Win32_Foundation", "Win32_Graphics_Dwm", "Win32_System_LibraryLoader", "Win32_System_SystemInformation", "Win32_UI_Controls"] }
