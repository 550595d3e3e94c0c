[package]
name = "tinymist_sync"
version = "0.1.0"
edition = "2021"
publish = false

[dependencies]
lsp-types = "*"
lsp-server = "*"
serde_json = "*"
log = "*"
