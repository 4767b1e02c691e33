[package]
name = "scsir"
version = "0.1.0"
edition = "2021"
publish = false

[dependencies]
nix = "*"
windows = { version = "0.48", features = ["Win32_Foundation", "Win32_Storage_IscsiDisc", "Win32_System_IO"] }

[dev-dependencies]
modular-bitfield-msb = "*"
