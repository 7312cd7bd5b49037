[package]
name = "dprint-plugin-ruff"
version = "0.1.0"
edition = "2021"
publish = false

[dependencies]
anyhow = "=1.0.104"
dprint-core = { version = "=0.75.0", default-features = false }
serde = { version = "=1.0.229", features = ["derive"] }
serde_json = "=1.0.154"
ruff_formatter = "=0.0.5"
ruff_python_formatter = "=0.0.5"
ruff_linter = "=0.15.22"
ruff_python_ast = "=0.0.5"
ruff_python_semantic = { version = "=0.0.5", features = ["serde"] }
get-size2 = ">=0.10.0, <0.10.2"
