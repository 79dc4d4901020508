[package]
name = "kuu"
version = "0.1.0"
edition = "2021"
publish = false

[dependencies]
anyhow = "1"
crossterm = "0.28"
ctrlc = "3"
dirs = "5"
ratatui = "0.29"
serde = { version = "1", features = ["derive"] }
toml = "0.8"
tree-sitter = "0.25"
tree-sitter-rust = "0.23"
tree-sitter-python = "0.23"
tree-sitter-ocaml = "0.23"
unicode-width = "0.2"
