[package]
name = "visualizer"
version = "0.1.0"
edition = "2021"
publish = false

[dependencies]
windows = { version = "0.52", features = ["Win32_Foundation", "Win32_Graphics_Gdi", "Win32_UI_WindowsAndMessaging", "Win32_Media_Audio", "Win32_System_Com", "Win32_System_Com_StructuredStorage", "Win32_System_Variant", "Win32_UI_Shell_PropertiesSystem"] }
raylib = "5"
raylib-sys = "5"
rustfft = "6"
serde = { version = "1", features = ["derive"] }
serde_json = "1"
hide_console = "*"
