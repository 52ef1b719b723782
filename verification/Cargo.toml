[package]
name = "livestar"
version = "0.1.0"
edition = "2021"
publish = false

[dependencies]
android_logger = "*"
jni = "0.21"
log = "0.4"
ndk = "0.9"
pollster = "*"
raw-window-handle = "0.6"
wgpu = "*"
