[package]
name = "unity_ls"
version = "0.1.0"
edition = "2021"
publish = false

[dependencies]
fxhash = "=0.2.1"
gen-lsp-types = { version = "=0.11.0", features = ["url"] }
lsp-server = "=0.10.0"
lsp-types = "=0.97.0"
regex = "=1.13.1"
saphyr = "=0.3.3"
saphyr-parser = "=0.3.3"
serde = { version = "=1.0.229", features = ["derive"] }
serde_json = "=1.0.154"
tracing = "=0.1.44"
tracing-subscriber = "=0.3.23"
tree-sitter = "=0.27.1"
tree-sitter-c-sharp = "=0.23.5"
url = "=2.5.8"
walkdir = "=2.5.0"
