[package]
name = "nrf52dk-sys"
version = "0.1.0"
edition = "2021"
publish = false

[dependencies]
cortex-m = "0.7"
r0 = "0.2"
