[package]
name = "dualoj-judge"
version = "0.1.0"
edition = "2021"
publish = false

[dependencies]
uuid = { version = "1", features = ["v4", "v5"] }
k8s-openapi = { version = "*", features = ["latest"] }
kube = { version = "*", features = ["ws"] }
futures = "0.3"
tokio = { version = "1", features = ["full"] }
tokio-util = { version = "*", features = ["compat"] }
tonic = "*"
prost = "*"
log = "0.4"
pretty_env_logger = "*"
structopt = "0.3"
tar = "*"
glob = "*"
serde_json = "1"
