[package]
name = "kimage"
version = "0.1.0"
edition = "2021"
publish = false

[dependencies]
base64 = "*"
rand = "*"
toml = "*"
serde_json = "*"
image = "*"
actix-web = "*"
actix-multipart = "*"
futures = "*"
tokio = { version = "*", features = ["macros", "rt-multi-thread"] }
reqwest = { version = "*", features = ["json", "multipart"] }
clap = { version = "*", features = ["derive"] }
clipboard = "*"
dirs = "*"
anyhow = "*"
log = "*"
pretty_env_logger = "*"
serde = { version = "*", features = ["derive"] }
