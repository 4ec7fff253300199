[package]
name = "stress_harness"
version = "0.1.0"
edition = "2021"
publish = false

[dependencies]
anyhow = "*"
bytes = "*"
rattler = { version = "*", default-features = false }
rattler_conda_types = { version = "*", default-features = false }
rattler_package_streaming = { version = "*", default-features = false }
reqwest = { version = "*", default-features = false }
tokio = { version = "*", features = ["macros", "rt"] }
