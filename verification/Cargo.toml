[package]
name = "sway_verified"
version = "0.1.0"
edition = "2021"
publish = false

[dependencies]
generational-arena = "0.2"
im = "15"
hashbrown = "0.13"
tower-lsp = "0.19"
