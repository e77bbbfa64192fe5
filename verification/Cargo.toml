[package]
name = "tinydiff"
version = "0.1.0"
edition = "2021"
publish = false

[dependencies]
git2 = { version = "*", default-features = false }
fs2 = "*"
serde = { version = "*", features = ["derive"] }
serde_json = "*"
thiserror = "*"
clap = { version = "*", features = ["derive"] }
tokio = { version = "*", features = ["rt"] }

[dev-dependencies]
tempfile = "*"
