[package]
name = "sysdefense"
version = "0.1.0"
edition = "2021"
publish = false

[dependencies]
windows = { version = "=0.58.0", features = ["Win32_Foundation", "Win32_Security", "Win32_System_Com", "Win32_System_Ole", "Win32_System_Variant", "Win32_System_Wmi", "Win32_System_Registry", "Win32_System_UpdateAgent", "Win32_NetworkManagement_WindowsFirewall", "Win32_NetworkManagement_NetManagement"] }
winreg = "=0.52.0"
wmi = "=0.18.4"
serde = { version = "=1.0.229", features = ["derive"] }
thiserror = "=2.0.21"
colored = "=3.1.1"
rustyline = "=19.0.0"
