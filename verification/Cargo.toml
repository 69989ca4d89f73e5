[package]
name = "proofdesk"
version = "0.1.0"
edition = "2021"
publish = false

[dependencies]
serde = { version = "1", features = ["derive"] }
serde_json = "1"
zip = { version = "*", default-features = false, features = ["deflate"] }
quick-xml = "*"
uuid = { version = "1", features = ["v4"] }
time = { version = "0.3", features = ["formatting"] }
rusqlite = { version = "*", features = ["bundled"] }
reqwest = { version = "*", default-features = false, features = ["json"] }
tokio = { version = "1", features = ["sync", "rt", "macros"] }
