[package]
name = "adb_usb_core"
version = "0.1.0"
edition = "2021"
publish = false

[dependencies]
rusb = "0.9"
nusb = "0.1"
async-io = "2"
futures-lite = "2"
rsa = "0.9"
base64 = "0.22"
rand = "0.8"
homedir = "0.3"
