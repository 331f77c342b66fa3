[package]
name = "rome_diagnostics"
version = "0.1.0"
edition = "2021"
publish = false

[dependencies]
pico-args = "=0.5.0"
