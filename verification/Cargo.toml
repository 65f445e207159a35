[package]
name = "mail_services"
version = "0.1.0"
edition = "2021"
publish = false

[dependencies]
ahash = "=0.8.12"
mail-auth = "0.7"
memory-stats = "=1.2.0"
serde = "=1.0.229"
sieve-rs = "=0.7.3"
tokio = { version = "=1.54.1", features = ["macros", "rt", "rt-multi-thread", "sync", "time"] }

[dev-dependencies]
serde_json = "=1.0.154"
