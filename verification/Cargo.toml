[package]
name = "papi"
version = "0.1.0"
edition = "2021"
publish = false

[dependencies]
criterion = { version = "0.5", default-features = false }
libc = "0.2"
papi-sys = "*"
toml = "0.5"
