[package]
name = "nova_rs"
version = "0.1.0"
edition = "2021"
publish = false

[dependencies]
ash = "0.29"
cgmath = "0.17"
d3d12 = "0.1"
log = "0.4"
winapi = { version = "0.3", features = ["d3d12", "dxgi", "dxgi1_2", "dxgi1_3", "dxgi1_4", "winerror"] }
