[package]
name = "upki-ffi"
version = "0.1.0"
edition = "2021"
publish = false

[dependencies]
upki = "=0.1.0"

[dev-dependencies]
clubcard = { version = "=0.3.4", features = ["builder"] }
clubcard-crlite = { version = "=0.3.2", features = ["builder"] }
tempfile = "=3.27.0"
