[package]
name = "shortcuts"
version = "0.1.0"
edition = "2021"
publish = false

[dependencies]
mlua = { version = "*", features = ["lua54", "vendored"] }
nix = { version = "*", features = ["ioctl"] }
structopt = "0.3"
