[package]
name = "pic_od"
version = "0.1.0"
edition = "2021"
publish = false

[dependencies]
anyhow = "*"
chrono = "*"
clap = { version = "*", features = ["derive", "env"] }
dirs = "*"
opendal = { version = "*", default-features = false, features = ["services-memory", "services-fs"] }
serde = { version = "*", features = ["derive"] }
tokio = { version = "*", features = ["rt-multi-thread", "macros", "fs"] }
toml = "*"
