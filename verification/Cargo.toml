[package]
name = "julia_interop"
version = "0.1.0"
edition = "2021"
publish = false

[dependencies]
jlrs = { version = "0.22", features = ["local-rt", "ccall", "jlrs-derive"] }
