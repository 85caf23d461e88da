[package]
name = "calibrator"
version = "0.1.0"
edition = "2021"
publish = false

[dependencies]
futures = "=0.3.34"
serde = { version = "=1.0.229", features = ["derive"] }
windows-core = "=0.62.2"
wmi = "=0.18.4"

[dependencies.windows]
version = "=0.62.2"
features = [
    "Win32_Devices_Display",
    "Win32_Foundation",
    "Win32_Graphics_Gdi",
    "Win32_Security",
    "Win32_System_Console",
    "Win32_System_EventLog",
    "Win32_System_LibraryLoader",
    "Win32_System_Power",
    "Win32_System_RemoteDesktop",
    "Win32_System_StationsAndDesktops",
    "Win32_System_SystemServices",
    "Win32_System_Threading",
    "Win32_UI_Shell",
    "Win32_UI_WindowsAndMessaging",
]
