[package]
name = "rust_bindgen_fuse"
version = "0.1.0"
edition = "2021"
publish = false

[dependencies]
color-eyre = "*"
derive_more = { version = "*", features = ["deref", "into"] }
nix = "*"
singleton-registry = "*"
tracing = "*"
