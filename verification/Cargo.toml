[package]
name = "python_lightningcss"
version = "0.1.0"
edition = "2021"
publish = false

[dependencies]
lightningcss = { version = "=1.0.0-alpha.72", features = ["browserslist", "visitor", "bundler"] }
browserslist-rs = "=0.19.0"
cssparser = "=0.37.0"
pyo3 = { version = "=0.30.1", features = ["abi3-py39"] }
