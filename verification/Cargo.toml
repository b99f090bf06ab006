[package]
name = "axdevice_base"
version = "0.1.0"
edition = "2021"
publish = false

[dependencies]
arrayvec = "=0.7.8"
axaddrspace = "=0.1.5"
axerrno = "=0.2.2"
axvmconfig = "=0.4.8"
serde = { version = "=1.0.229", features = ["derive"] }
