[package]
name = "gta-tools"
version = "0.1.0"
edition = "2021"
publish = false

[dependencies]
semver = "=1.0.28"
serde = { version = "1", features = ["derive"] }
serde_json = "1"
log = "0.4"
humantime = "2"
open = "5"
eframe = { version = "0.33", default-features = false, features = ["glow", "default_fonts", "x11", "wayland"] }
egui_extras = { version = "0.33", features = ["image", "svg"] }
catppuccin-egui = { version = "5.7", default-features = false, features = ["egui33"] }
image = { version = "0.25", default-features = false, features = ["png"] }
winreg = "0.55"
nyquest = { version = "0.5", features = ["blocking", "json"] }
nyquest-backend-winrt = "0.5"
windows = { version = "0.61", features = ["Win32_Foundation", "Win32_Security", "Win32_System_Com", "Win32_System_Diagnostics_ToolHelp", "Win32_System_Threading", "Win32_NetworkManagement_WindowsFirewall", "Win32_UI_Input_KeyboardAndMouse", "Win32_UI_Shell", "Win32_UI_WindowsAndMessaging"] }
