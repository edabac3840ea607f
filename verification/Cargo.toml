[package]
name = "cadit"
version = "0.1.0"
edition = "2021"
publish = false

[dependencies]
cgmath = "=0.18.0"
thiserror = "=1.0.69"
egui = { version = "=0.23.0", default-features = false }
