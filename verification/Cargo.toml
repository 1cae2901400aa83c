[package]
name = "host_telemetry"
version = "0.1.0"
edition = "2021"
publish = false

[dependencies]
actix-web = "*"
tera = "*"
windows = { version = "*", features = ["Win32_Foundation", "Win32_System_SystemInformation", "Win32_System_Registry", "Win32_NetworkManagement_IpHelper"] }
