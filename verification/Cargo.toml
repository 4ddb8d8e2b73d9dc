[package]
name = "anyformat"
version = "0.1.0"
edition = "2021"
publish = false

[dependencies]
serde = { version = "*", features = ["derive"] }
serde_json = "*"
serde_yaml = "*"
serde-jsonlines = "*"
quick-xml = { version = "*", features = ["serialize"] }
toml = "*"
csv = "*"
thiserror = "*"
clap = { version = "*", features = ["derive"] }
strum = { version = "*", features = ["derive"] }
