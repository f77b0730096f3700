[package]
name = "cargo_difftests"
version = "0.1.0"
edition = "2021"
publish = false

[dependencies]
rustc-demangle = "=0.1.28"
path-slash = "=0.2.1"
anyhow = "=1.0.104"
chrono = { version = "=0.4.45", features = ["serde"] }
clap = { version = "=4.6.7", features = ["derive", "env"] }
git2 = { version = "=0.21.0", default-features = false }
libc = "=0.2.191"
log = "=0.4.34"
pretty_env_logger = "=0.5.0"
proc-macro2 = "=1.0.107"
quote = "=1.0.47"
serde = { version = "=1.0.229", features = ["derive"] }
serde_json = "=1.0.154"
syn = { version = "=2.0.119", features = ["full"] }
tempfile = "=3.27.0"
thiserror = "=2.0.21"
