[package]
name = "rosin_win"
version = "0.1.0"
edition = "2021"
publish = false

[dependencies]
pollster = "=0.4.0"
raw-window-handle = "=0.6.2"
keyboard-types = "=0.8.3"
vello = "=0.9.0"
log = "=0.4.35"

[dependencies.windows]
version = "=0.61.3"
features = [
    "Win32_Foundation",
    "Win32_Graphics_Gdi",
    "Win32_Globalization",
    "Win32_System_Com",
    "Win32_System_DataExchange",
    "Win32_System_LibraryLoader",
    "Win32_System_Memory",
    "Win32_System_Ole",
    "Win32_UI_Controls",
    "Win32_UI_HiDpi",
    "Win32_UI_Input_Ime",
    "Win32_UI_Input_KeyboardAndMouse",
    "Win32_UI_Input_Pointer",
    "Win32_UI_Shell",
    "Win32_UI_Shell_Common",
    "Win32_UI_WindowsAndMessaging",
]
