[package]
name = "typst_py"
version = "0.1.0"
edition = "2021"
publish = false

[dependencies]
chrono = { version = "0.4", default-features = false, features = ["clock", "std"] }
codespan-reporting = "0.13"
comemo = "0.5"
dirs = "6"
ecow = "0.2"
flate2 = "1"
pathdiff = "0.2"
pyo3 = { version = "0.25", features = ["abi3-py38"] }
rustc-hash = "2"
serde = { version = "1", features = ["derive"] }
serde_json = "1"
serde_yaml = "0.9"
tar = "0.4"
typst = "0.14"
typst-eval = "0.14"
typst-html = "0.14"
typst-kit = "0.14"
typst-pdf = "0.14"
typst-render = "0.14"
typst-svg = "0.14"
ureq = "2"
