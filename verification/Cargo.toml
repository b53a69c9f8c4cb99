[package]
name = "rust_onnx_infer"
version = "0.1.0"
edition = "2021"
publish = false

[dependencies]
ndarray = "*"
opencv = "0.88"
ort = { version = "=2.0.0-rc.15", default-features = false, features = ["ndarray", "load-dynamic", "std"] }
thiserror = "1"
