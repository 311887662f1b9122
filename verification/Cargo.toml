[package]
name = "wgsl_lsp"
version = "0.1.0"
edition = "2021"
publish = false

[dependencies]
naga = { version = "*", features = ["wgsl-in"] }
dashmap = "*"
tower-lsp = "*"
tokio = { version = "*", features = ["full"] }
anyhow = "*"
mimalloc = "*"
