[package]
name = "cobase"
version = "0.1.0"
edition = "2021"
publish = false

[dependencies]
actix = "=0.13.5"
chrono = { version = "=0.4.45", features = ["serde"] }
clap = "=4.6.7"
config = { version = "=0.13.4", default-features = false, features = ["yaml"] }
evento = "=0.7.2"
futures = "=0.3.34"
nanoid = "=0.4.0"
opendal = { version = "=0.45.1", default-features = false, features = ["services-fs", "services-memory"] }
pikav-client = "=0.20.14"
pulsar = { version = "*", default-features = false, features = ["tokio-runtime"] }
serde = { version = "=1.0.229", features = ["derive"] }
serde_json = "=1.0.154"
sqlx = { version = "=0.7.4", default-features = false, features = ["runtime-tokio", "postgres", "chrono", "json", "uuid"] }
tokio = { version = "=1.54.1", features = ["rt", "macros", "time"] }
tracing = "=0.1.44"
uuid = { version = "=1.29.0", features = ["v4"] }
