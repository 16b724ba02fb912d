[package]
name = "cardamom_loader"
version = "0.1.0"
edition = "2021"
publish = false

[dependencies]
anyhow = "=1.0.104"
serde = { version = "=1.0.229", features = ["derive"] }
serde_repr = "=0.1.21"
toml = "=0.5.11"
tracing = "=0.1.44"
tracing-subscriber = "=0.3.23"
windows = { version = "=0.58.0", features = ["Win32_Foundation", "Win32_System_Console", "Win32_System_LibraryLoader", "Win32_System_SystemServices", "Win32_UI_Shell", "Win32_UI_WindowsAndMessaging"] }
