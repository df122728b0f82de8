[package]
name = "artemis-assets"
version = "0.1.0"
edition = "2021"
publish = false

[dependencies]
primitive-types = { version = "*", default-features = false }
sp-core = { version = "*", default-features = false }
sp-runtime = { version = "*", default-features = false }
frame-support = { version = "*", default-features = false }
frame-system = { version = "*", default-features = false }
parity-scale-codec = { version = "*", default-features = false, features = ["derive"] }
