[package]
name = "autospot"
version = "0.1.0"
edition = "2021"
publish = false

[dependencies]
anyhow = "1"
clap = { version = "4", features = ["derive"] }
serde = { version = "1", features = ["derive"] }
serde_json = "1"
serialport = { version = "4", default-features = false }
tokio = { version = "1", features = ["macros", "rt", "sync", "time"] }
toml = "*"
tracing = "0.1"
tracing-appender = "0.2"
tracing-subscriber = "0.3"
windows = { version = "0.62", features = ["Networking_Connectivity", "Networking_NetworkOperators", "Foundation_Collections", "Win32_Foundation", "Win32_NetworkManagement_IpHelper", "Win32_NetworkManagement_Ndis", "Win32_NetworkManagement_WiFi", "Win32_Networking_WinSock", "Win32_Security", "Win32_Storage_FileSystem", "Win32_System_RemoteDesktop", "Win32_System_WindowsProgramming", "Win32_UI_Shell"] }
windows-service = "*"
