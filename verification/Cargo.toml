[package]
name = "dfu_libusb"
version = "0.1.0"
edition = "2021"
publish = false

[dependencies]
dfu-core = { version = "=0.6.0", features = ["std"] }
libusb1-sys = "=0.6.5"
rusb = "=0.9.3"
thiserror = "=1.0.69"
