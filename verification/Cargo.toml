[package]
name = "tree_sitter_notebook"
version = "0.1.0"
edition = "2021"
publish = false

[dependencies]
tree-sitter = "=0.27.0"

[dev-dependencies]
serde_json = "*"
