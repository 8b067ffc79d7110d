[package]
name = "triad_protocol"
version = "0.1.0"
edition = "2021"
publish = false

[dependencies]
anchor-lang = { version = "=0.30.1", features = ["init-if-needed"] }
anchor-spl = "=0.30.1"
bytemuck = "=1.25.2"
mpl-core = "=0.7.2"
spl-token-metadata-interface = "=0.3.5"
