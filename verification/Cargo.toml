[package]
name = "node_canvas"
version = "0.1.0"
edition = "2021"
publish = false

[dependencies]
rand = "0.8"
serde = { version = "1", features = ["derive"] }
serde_json = "1"
egui = { version = "0.28", features = ["serde"] }
