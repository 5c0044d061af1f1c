[package]
name = "kemono_dl"
version = "0.1.0"
edition = "2021"
publish = false

[dependencies]
anyhow = "=1.0.104"
argh = "=0.1.19"
chrono = "=0.4.45"
ctrlc = "=3.5.2"
http = "=1.5.0"
kdam = "=0.6.4"
nyquest = { version = "=0.4.0", features = ["async", "json"] }
regex = "=1.13.1"
serde = { version = "=1.0.229", features = ["derive"] }
tokio = { version = "=1.53.2", features = ["rt-multi-thread", "macros", "sync", "fs", "io-util"] }
tracing = "=0.1.44"
tracing-subscriber = { version = "=0.3.23", features = ["env-filter", "fmt"] }
url = "=2.5.8"
