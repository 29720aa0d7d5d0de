[package]
name = "vga_buffer"
version = "0.1.0"
edition = "2021"
publish = false

[dependencies]
volatile = "0.2"
spinning_top = "*"
lock_api = "*"
lazy_static = { version = "1", features = ["spin_no_std"] }
