[package]
name = "libindigo"
version = "0.3.0"
edition = "2021"
publish = false

[dependencies]
quick-xml = "=0.31.0"
tracing = "=0.1.44"
tracing-subscriber = { version = "=0.3.23", features = ["env-filter", "fmt"] }
thiserror = "=1.0.69"
async-trait = "=0.1.92"
funty = "=2.0.0"
tokio = { version = "1", features = ["sync", "rt", "time"] }
