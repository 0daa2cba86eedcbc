[package]
name = "vga_text"
version = "0.1.0"
edition = "2021"
publish = false

[dependencies]
volatile = "=0.2.7"
spin = "=0.5.2"
lazy_static = "=1.5.1"
cpuio = "=0.2.0"
