[package]
name = "speech_translator"
version = "0.1.0"
edition = "2021"
publish = false

[dependencies]
num_cpus = "*"
actix-web = "*"
anyhow = "*"
clap = { version = "*", features = ["derive"] }
cpal = "*"
env_logger = "*"
hound = "*"
log = "*"
reqwest = { version = "*", default-features = false, features = ["json", "multipart"] }
serde = { version = "*", features = ["derive"] }
serde_json = "*"
sysinfo = "*"
tokio = { version = "*", features = ["rt-multi-thread"] }
