[package]
name = "backends_osx"
version = "0.1.0"
edition = "2021"
publish = false

[dependencies]
darwin-libproc = "=0.2.0"
libc = "=0.2.191"
mach = "=0.3.2"
rustler = "=0.33.0"
