[package]
name = "renderdoc"
version = "0.12.1"
edition = "2021"
publish = false

[dependencies]
float-cmp = "0.9"
glutin = "*"
libloading = "0.8"
once_cell = "1"
winapi = { version = "0.3", features = ["d3d11", "d3d12", "guiddef", "windef"] }
wio = "0.2"
