[package]
name = "tackle"
version = "0.1.0"
edition = "2021"
publish = false

[dependencies]
clap = { version = "3", features = ["derive"] }
dirs = "4"
env_logger = "0.10"
futures = "0.3"
git2 = { version = "0.18", default-features = false }
lazy_static = "1"
log = "0.4"
pretty_env_logger = "0.4"
regex = "1"
semver = "1"
serde = { version = "1", features = ["derive"] }
tempdir = "0.3"
thiserror = "1"
tokio = { version = "1", features = ["rt-multi-thread", "macros"] }
toml = "0.5"
tracing = "0.1"
url = "2"
