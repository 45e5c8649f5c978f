[package]
name = "gpio_lines"
version = "0.1.0"
edition = "2021"
publish = false

[dependencies]
heapless = "0.8"
nix = { version = "0.29", features = ["ioctl", "poll"] }
libc = "0.2"
