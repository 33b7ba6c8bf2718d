[package]
name = "bigcedilla"
version = "0.1.0"
edition = "2021"
publish = false

[dependencies]
anyhow = "=1.0.104"
env_logger = "=0.11.11"
libc = "=0.2.191"
log = "=0.4.35"
wl-proxy = { version = "=0.1.5", features = ["protocol-input_method_unstable_v1"] }
xkbcommon = "=0.9.0"
