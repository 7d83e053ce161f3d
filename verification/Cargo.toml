[package]
name = "dpsa4fl"
version = "0.1.0"
edition = "2021"
publish = false

[dependencies]
anyhow = "=1.0.104"
base64 = "=0.21.7"
clap = { version = "4", features = ["derive"] }
fixed = "1"
http = "0.2"
janus_client = "=0.7.139"
janus_collector = { version = "=0.7.139", features = ["fpvec_bounded_l2"] }
janus_core = { version = "=0.7.139", features = ["fpvec_bounded_l2"] }
janus_messages = "=0.7.144"
prio = { version = "=0.16.8", features = ["experimental"] }
rand = "=0.8.8"
reqwest = { version = "0.12", features = ["json"] }
serde = { version = "1", features = ["derive"] }
serde_json = "1"
tokio = { version = "1", features = ["full"] }
tracing = "0.1"
url = "2"
warp = "0.3"
