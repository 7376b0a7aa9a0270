[package]
name = "uarch_emu"
version = "0.1.0"
edition = "2021"
publish = false

[dependencies]
object = { version = "*", default-features = false, features = ["read_core", "elf", "std"] }
rand = "0.8"
