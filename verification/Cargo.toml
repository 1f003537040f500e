[package]
name = "piwatch"
version = "0.1.0"
edition = "2021"
publish = false

[dependencies]
anyhow = "*"
axum = "*"
dashmap = "*"
futures = "*"
futures-channel = "*"
hostname = "*"
netlink-packet-core = "*"
netlink-packet-route = "*"
netlink-sys = "*"
reqwest = { version = "*", default-features = false, features = ["json"] }
rtnetlink = "*"
serde = { version = "*", features = ["derive"] }
serde_json = "*"
tokio = { version = "*", features = ["rt", "rt-multi-thread", "macros", "time", "net", "sync"] }
tracing = "*"
tracing-subscriber = { version = "*", features = ["env-filter", "fmt"] }
url = "*"
