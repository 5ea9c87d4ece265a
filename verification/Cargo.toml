[package]
name = "python_unparser"
version = "0.1.0"
edition = "2021"
publish = false

[dependencies]
rustpython-ast = "0.3"

[dev-dependencies]
rustpython-parser = "0.3"
