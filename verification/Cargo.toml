[package]
name = "concourse_resource_notion_db"
version = "0.1.0"
edition = "2021"
publish = false

[dependencies]
serde_json = "*"
serde = { version = "*", features = ["derive"] }
notion = "*"
reqwest = { version = "*", default-features = false, features = ["json", "rustls-tls"] }
tokio = { version = "*", features = ["rt-multi-thread"] }
concourse-resource = "*"
fs-err = "*"
color-eyre = "*"
