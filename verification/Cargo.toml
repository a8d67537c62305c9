[package]
name = "blinds"
version = "0.1.0"
edition = "2021"
publish = false

[dependencies]
actix-web = { version = "4", default-features = false, features = ["macros"] }
anyhow = "1"
async-trait = "0.1"
clap = { version = "3", features = ["derive"] }
directories = "4"
log = "0.4"
lss_driver = "0.8"
rumqttc = { version = "0.24", default-features = false }
serde = { version = "1", features = ["derive"] }
serde_json = "1"
serde_yaml = "0.8"
simplelog = "0.12"
thiserror = "1"
tokio = { version = "1", features = ["rt-multi-thread", "macros", "time", "fs", "io-util", "sync"] }
