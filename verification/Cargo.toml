[package]
name = "unduler"
version = "0.1.0"
edition = "2021"
publish = false

[dependencies]
anyhow = "=1.0.104"
chrono = { version = "=0.4.45", default-features = false, features = ["std", "clock", "serde"] }
clap = { version = "=4.6.7", features = ["derive"] }
dirs = "=7.0.0"
git2 = { version = "=0.21.0", default-features = false }
regex = "=1.13.1"
reqwest = { version = "=0.12.28", default-features = false, features = ["json", "rustls-tls"] }
semver = { version = "=1.0.28", features = ["serde"] }
serde = { version = "=1.0.229", features = ["derive"] }
serde_json = "=1.0.154"
thiserror = "=2.0.21"
tokio = { version = "=1.54.1", features = ["rt", "rt-multi-thread"] }
toml = "=1.1.8"
tracing = "=0.1.44"
tracing-subscriber = { version = "=0.3.23", features = ["env-filter"] }
wasmtime = { version = "=46.0.3", default-features = false, features = ["component-model", "cranelift", "runtime", "std"] }
