[package]
name = "boot_core"
version = "0.1.0"
edition = "2021"
publish = false

[dependencies]
uefi = { version = "*", default-features = false, features = ["alloc"] }
log = "*"
linked_list_allocator = "*"
bumpalo = { version = "*", features = ["collections"] }
spin = "*"
widestring = "*"
