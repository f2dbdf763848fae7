[package]
name = "tmgr"
version = "2.3.0"
edition = "2021"
publish = false

[dependencies]
colored = "=3.1.1"
comfy-table = "=7.2.2"
semver = "=1.0.28"
serde = { version = "=1.0.229", features = ["derive"] }
clap = { version = "=4.6.7", features = ["derive"] }
directories = "=6.0.0"
tokio = { version = "=1.54.1", features = ["macros", "rt-multi-thread"] }
reqwest = { version = "=0.12.28", default-features = false, features = ["json", "rustls-tls"] }
