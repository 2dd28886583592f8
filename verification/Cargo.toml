[package]
name = "hyperion"
version = "0.1.0"
edition = "2021"
publish = false

[dependencies]
anyhow = "1"
derive_more = "0.99"
evenio = "0.5"
glam = "*"
libc = "0.2"
ndarray = "*"
rayon = "1"
signal-hook = "0.3"
spin = "0.9"
spin_sleep = "1"
tracing = "0.1"
uuid = "1"
valence_protocol = "0.2.0-alpha.1"
valence_server = "0.2.0-alpha.1"
