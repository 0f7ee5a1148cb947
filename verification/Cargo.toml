[package]
name = "fs-relayer"
version = "0.1.0"
edition = "2021"
publish = false

[dependencies]
uuid = { version = "1", features = ["serde"] }
directories = "5"
serde = { version = "1", features = ["derive"] }
serde_json = "1"
anyhow = "1"
confy = "*"
actix-web = "4"
tokio = { version = "1", features = ["macros", "rt-multi-thread", "sync"] }
tracing = "0.1"
tracing-subscriber = { version = "0.3", features = ["env-filter", "fmt"] }
futures = "0.3"
async-trait = "0.1"
chrono = "0.4"
log = "0.4"
redis = { version = "*", features = ["tokio-comp"] }
fang = { version = "0.10", default-features = false, features = ["asynk"] }
openssl = "0.10"
postgres-openssl = "0.5"
