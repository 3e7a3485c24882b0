[package]
name = "langparse"
version = "0.1.0"
edition = "2021"
publish = false

[dependencies]
anyhow = "1"
log = "0.4"
logging_timer = "1"
tree-sitter = "*"
tree-sitter-bash = "*"
tree-sitter-c = "*"
tree-sitter-c-sharp = "*"
tree-sitter-cpp = "*"
tree-sitter-css = "*"
tree-sitter-go = "*"
tree-sitter-haskell = "*"
tree-sitter-hcl = "*"
tree-sitter-java = "*"
tree-sitter-json = "*"
tree-sitter-julia = "*"
tree-sitter-ocaml = "*"
tree-sitter-php = "*"
tree-sitter-python = "*"
tree-sitter-ruby = "*"
tree-sitter-rust = "*"
tree-sitter-scala = "*"
tree-sitter-swift = "*"
