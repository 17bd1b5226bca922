[package]
name = "dynaflare"
version = "0.1.0"
edition = "2021"
publish = false

[dependencies]
anyhow = "1"
duration-human = "*"
fern = { version = "0.6", features = ["colored"] }
figment = { version = "0.10", features = ["toml"] }
log = { version = "0.4", features = ["serde"] }
serde = { version = "1", features = ["derive"] }
ureq = { version = "2", features = ["json"] }
