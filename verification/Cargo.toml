[package]
name = "sahne_karnal"
version = "0.1.0"
edition = "2021"
publish = false

[dependencies]
sha2 = { version = "=0.10.9", features = ["oid"] }
rsa = "=0.9.10"
fdt = "=0.1.5"
volatile = "=0.4.6"
volatile-register = "*"
uefi = "*"
