[package]
name = "fish_reader"
version = "0.1.0"
edition = "2021"
publish = false

[dependencies]
errno = "0.3"
libc = "0.2"
nix = { version = "0.30", default-features = false, features = ["fs", "process", "signal", "term"] }
once_cell = "1"
portable-atomic = { version = "1", default-features = false, features = ["fallback"] }
