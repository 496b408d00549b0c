[package]
name = "nd313"
version = "0.1.0"
edition = "2021"
publish = false

[dependencies]
log = "=0.4.35"
lotussim-script = "=0.9.0"
lotus-extra = "=0.3.7"
