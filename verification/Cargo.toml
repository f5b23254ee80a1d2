[package]
name = "pokerus-core"
version = "0.1.0"
edition = "2021"
publish = false

[dependencies]
rand = "=0.10.3"
bevy = { version = "=0.18.1", default-features = false }
log = "=0.4.34"
