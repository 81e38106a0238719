[package]
name = "slap-your-openclaw"
version = "0.1.1"
edition = "2021"
publish = false

[dependencies]
uuid = { version = "1", features = ["v4"] }
clap = { version = "4", features = ["derive", "env"] }
serde = { version = "1", features = ["derive"] }
serde_json = "1"
tokio = { version = "1", features = ["full"] }
rmcp = { version = "0.1", features = ["server", "macros", "transport-io"] }
rumqttc = { version = "0.24", default-features = false }
libc = "0.2"
