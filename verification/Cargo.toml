[package]
name = "agentmux"
version = "0.1.0"
edition = "2021"
publish = false

[dependencies]
base64 = "0.22"
libc = "0.2"
rand = "0.9"
serde = { version = "1", features = ["derive"] }
serde_json = "1"
sha2 = "0.10"
subtle = "2"
time = { version = "0.3", features = ["formatting", "parsing"] }
tokio = { version = "1", features = ["rt-multi-thread", "sync", "time", "macros"] }
uuid = { version = "1", features = ["v4"] }
