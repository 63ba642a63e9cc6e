[package]
name = "zhol"
version = "0.1.0"
edition = "2021"
publish = false

[dependencies]
anyhow = "=1.0.104"
bytemuck = { version = "=1.25.2", features = ["derive"] }
dynasmrt = "=5.1.0"
parking_lot = "=0.12.5"
smol = "=2.0.2"
windows = { version = "0.58.0", features = ["Win32_Foundation", "Win32_System_Memory", "Win32_System_ProcessStatus", "Win32_System_Diagnostics_Debug", "Win32_System_Threading"] }
windows-result = "0.2.0"
