[package]
name = "fork_choice"
version = "0.1.0"
edition = "2021"
publish = false

[dependencies]
actix-web = "4"
alloy-primitives = "*"
anyhow = "1"
derive_more = { version = "*", features = ["display"] }
parking_lot = "0.12"
serde = { version = "1", features = ["derive"] }
thiserror = "*"
tracing = "0.1"
tree_hash = "*"
