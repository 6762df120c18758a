[package]
name = "rina"
version = "0.1.0"
edition = "2021"
publish = false

[dependencies]
serde_json = "1"
serenity = { version = "=0.12.5", default-features = false, features = ["client", "gateway", "rustls_backend", "model", "cache", "framework", "standard_framework", "builder", "utils", "voice"] }
songbird = { version = "=0.4.6", default-features = false, features = ["serenity", "driver", "gateway", "rustls", "builtin-queue"] }
tokio = { version = "1", default-features = false, features = ["macros", "rt-multi-thread", "process", "sync"] }
reqwest = { version = "=0.11.27", default-features = false, features = ["rustls-tls"] }
tracing = "0.1"
tracing-subscriber = { version = "0.3", default-features = false, features = ["fmt"] }
