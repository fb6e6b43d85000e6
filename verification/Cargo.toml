[package]
name = "rf2_reader"
version = "0.1.0"
edition = "2021"
publish = false

[dependencies]
atomic-wait = "=1.1.0"
libc = "=0.2.190"
proton-finder = "=1.1.0"
sysinfo = "=0.30.13"
