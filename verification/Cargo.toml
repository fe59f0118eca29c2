[package]
name = "brep_kernel"
version = "0.1.0"
edition = "2021"
publish = false

[dependencies]
anyhow = "=1.0.104"
approx = "=0.5.1"
fj-export = "=0.22.0"
fj-host = "=0.22.0"
fj-interop = "=0.22.0"
fj-math = "=0.22.0"
fj-operations = "=0.22.0"
tracing-subscriber = { version = "=0.3.23", features = ["env-filter"] }
