[package]
name = "layerhook"
version = "0.1.0"
edition = "2021"
publish = false

[dependencies]
cosmic-protocols = { version = "=0.2.0", default-features = false, features = ["client"] }
directories = "=6.0.0"
eframe = { version = "=0.37.0", default-features = false, features = ["default_fonts", "glow", "wayland", "x11"] }
egui = { version = "=0.37.0", default-features = false }
fancy-regex = "=0.17.0"
gtk = "=0.18.2"
hidapi = { version = "=2.6.7", default-features = false, features = ["linux-native-basic-udev"] }
image = { version = "=0.25.10", default-features = false, features = ["png"] }
qmk-via-api = "=0.10.1"
regex = "=1.13.1"
serde = { version = "=1.0.229", features = ["derive"] }
serde_json = "=1.0.154"
tray-icon = "=0.26.1"
wayland-client = "=0.31.15"
wayland-protocols = { version = "=0.32.13", features = ["client", "staging"] }
wayland-protocols-plasma = { version = "=0.3.12", features = ["client"] }
wayland-protocols-wlr = { version = "=0.3.12", features = ["client"] }
windows = { version = "0.62", features = ["Win32_Foundation", "Win32_System_Threading", "Win32_UI_Accessibility", "Win32_UI_WindowsAndMessaging"] }
winreg = "*"
x11rb = "=0.14.0"
