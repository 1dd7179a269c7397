[package]
name = "gh-workflow"
version = "0.1.0"
edition = "2021"
publish = false

[dependencies]
async-trait = "0.1"
derive_more = { version = "1", features = ["from"] }
heck = "0.5"
indexmap = { version = "2", features = ["serde"] }
merge = { version = "0.1", default-features = false }
serde = { version = "1", features = ["derive"] }
serde_json = "1"
serde_yaml = "0.9"
