[package]
name = "tick"
version = "0.0.1"
edition = "2021"
publish = false

[dependencies]
mio = "0.5"
slab = "0.1"
log = "0.3"
eventual = "0.1"
