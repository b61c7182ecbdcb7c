[package]
name = "cdi_drm"
version = "0.1.0"
edition = "2021"
publish = false

[dependencies]
libdrm = "*"
serde = "*"
serde_derive = "*"
serde_json = "*"
