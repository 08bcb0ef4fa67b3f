[package]
name = "cuda_d3d11_interop"
version = "0.1.0"
edition = "2021"
publish = false

[dependencies]
anyhow = "=1.0.104"
windows = { version = "=0.58.0", features = ["Win32_Graphics_Direct3D11", "Win32_Foundation"] }
