[package]
name = "cemtexer"
version = "0.1.0"
edition = "2021"
publish = false

[dependencies]
regex = "1"
time = { version = "0.3", features = ["parsing"] }
rand = "0.8"
clap = { version = "3", features = ["derive"] }
config = { version = "0.13", default-features = false, features = ["toml"] }
csv = "1"
serde = { version = "1", features = ["derive"] }
tokio = { version = "1", features = ["fs", "io-util", "macros", "rt-multi-thread"] }
thiserror = "1"
