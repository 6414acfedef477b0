[package]
name = "differ"
version = "0.1.0"
edition = "2021"
publish = false

[dependencies]
git2 = { version = "*", default-features = false }
serde = { version = "1", features = ["derive"] }
serde_json = "1"
tokio = { version = "1", features = ["sync", "net", "rt-multi-thread", "macros"] }
rmcp = { version = "*", features = ["server", "macros", "transport-streamable-http-server"] }
hyper = { version = "1", features = ["server", "http1"] }
hyper-util = { version = "0.1", features = ["tokio", "server-auto", "service"] }
tower = "0.5"

[dev-dependencies]
tempfile = "3"
