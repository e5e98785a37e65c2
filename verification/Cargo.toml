[package]
name = "rvm"
version = "0.1.0"
edition = "2021"
publish = false

[dependencies]
bit_field = "0.10"
raw-cpuid = "11"
spin = "0.9"
x86_64 = { version = "0.14", default-features = false }
