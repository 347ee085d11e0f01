[package]
name = "gpui_windows"
version = "0.1.0"
edition = "2021"
publish = false

[dependencies]
accesskit = "*"
accesskit_windows = "*"
anyhow = "1.0"
dunce = "1.0"
futures = "0.3"
log = "0.4"
raw-window-handle = "0.6"
smallvec = "1"

[dependencies.windows]
version = "0.61"
features = [
    "Wdk_System_SystemServices",
    "Win32_Devices_Display",
    "Win32_Foundation",
    "Win32_Graphics_Dwm",
    "Win32_Graphics_Gdi",
    "Win32_Security",
    "Win32_System_Com",
    "Win32_System_Com_StructuredStorage",
    "Win32_System_DataExchange",
    "Win32_System_Diagnostics_Debug",
    "Win32_System_LibraryLoader",
    "Win32_System_Memory",
    "Win32_System_Ole",
    "Win32_System_SystemInformation",
    "Win32_System_SystemServices",
    "Win32_UI_ColorSystem",
    "Win32_UI_Controls",
    "Win32_UI_HiDpi",
    "Win32_UI_Input_KeyboardAndMouse",
    "Win32_UI_Shell",
    "Win32_UI_WindowsAndMessaging",
]
