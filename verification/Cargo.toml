[package]
name = "oyster"
version = "0.1.0"
edition = "2021"
publish = false

[dependencies]
tokio = { version = "*", features = ["rt", "rt-multi-thread", "sync", "net", "macros", "time"] }
rosbag = "*"
serde = { version = "*", features = ["derive"] }
serde_json = "*"
serde_with = "*"
chrono = { version = "*", features = ["serde"] }
nalgebra = { version = "*", features = ["serde-serialize"] }
