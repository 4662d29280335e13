[package]
name = "musicbot"
version = "0.1.0"
edition = "2021"
publish = false

[dependencies]
serde_json = "=1.0.151"
rand = "=0.9.5"
serde = { version = "1", features = ["derive"] }
clap = { version = "4", features = ["derive"] }
tokio = { version = "1", features = ["macros", "process", "rt-multi-thread", "time"] }
reqwest = { version = "0.12", default-features = false, features = ["rustls-tls"] }
serenity = { version = "=0.12.5", default-features = false, features = ["builder", "cache", "client", "gateway", "http", "model", "rustls_backend"] }
songbird = "=0.5.0"
lofty = "=0.25.4"
