[package]
name = "cargo_advent"
version = "0.1.0"
edition = "2021"
publish = false

[dependencies]
anyhow = "=1.0.104"
chrono = "=0.4.45"
directories = "=5.0.1"
pico-args = "=0.5.0"
ureq = "=2.12.1"
