[package]
name = "cargo_gpu"
version = "0.1.0"
edition = "2021"
publish = false

[dependencies]
anyhow = "=1.0.104"
camino = "=1.2.6"
cargo_metadata = "=0.21.0"
clap = { version = "=4.6.7", features = ["derive"] }
crossterm = "=0.29.0"
directories = "=6.0.0"
dunce = "=1.0.5"
env_logger = "=0.11.11"
log = "=0.4.34"
relative-path = "=2.0.3"
rustc_codegen_spirv-target-specs = { version = "=0.9.0", features = ["include_str"] }
semver = "=1.0.28"
serde = { version = "=1.0.229", features = ["derive"] }
serde_json = "=1.0.154"
spirv-builder = { version = "=0.11.0", default-features = false, features = ["clap", "watch"] }
thiserror = "=2.0.21"

[dev-dependencies]
tempfile = "=3.27.0"
