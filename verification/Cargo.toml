[package]
name = "package_installer"
version = "0.1.0"
edition = "2021"
publish = false

[dependencies]
dirs = "*"
futures-util = "*"
reqwest = { version = "*", features = ["stream"] }
serde = { version = "1", features = ["derive"] }
windows = { version = "*", features = ["Win32_Foundation", "Win32_System_Com", "Win32_UI_Shell", "Win32_Storage_FileSystem"] }
winreg = "*"
zip = { version = "*", default-features = false, features = ["deflate"] }
