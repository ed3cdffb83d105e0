[package]
name = "snowflake_ingame"
version = "0.1.0"
edition = "2021"
publish = false

[dependencies]
indexmap = "=1.9.3"
uuid = "=0.8.2"
crossbeam-channel = "=0.5.17"
parking_lot = "=0.12.5"
thiserror = "=1.0.69"
tokio = { version = "=1.54.1", features = ["rt", "net", "io-util", "sync", "time"] }
dashmap = "=5.5.3"
ash = "=0.37.3"
detour = "=0.8.1"
imgui = "=0.8.2"
windows = { version = "=0.44.0", features = ["Win32_Foundation", "Win32_Graphics_Direct3D", "Win32_Graphics_Direct3D_Fxc", "Win32_Graphics_Direct3D11", "Win32_Graphics_Dxgi", "Win32_Graphics_Dxgi_Common", "Win32_Graphics_Gdi", "Win32_Graphics_OpenGL", "Win32_Security", "Win32_System_Console", "Win32_System_LibraryLoader", "Win32_System_SystemServices", "Win32_System_Threading", "Win32_UI_WindowsAndMessaging"] }
