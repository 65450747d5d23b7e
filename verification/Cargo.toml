[package]
name = "wincallnotifier"
version = "0.1.0"
edition = "2021"
publish = false

[dependencies]
regex = "1"
chrono = "0.4"
serde = { version = "1", features = ["derive"] }
serde_json = "1"
thiserror = "1"
tokio = { version = "1", features = ["rt-multi-thread", "macros", "process", "time", "sync"] }
tracing = "0.1"
tracing-subscriber = "0.3"
directories = "5"
anyhow = "1"
windows-sys = { version = "0.52", features = ["Win32_Foundation", "Win32_Graphics_Gdi", "Win32_System_LibraryLoader", "Win32_UI_WindowsAndMessaging", "Win32_System_Console"] }
