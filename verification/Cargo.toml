[package]
name = "hcloud-csi-rwx"
version = "0.2.2"
edition = "2021"
publish = false

[dependencies]
anyhow = "1"
axum = "0.8"
clap = { version = "4", features = ["derive", "env"] }
futures = "0.3"
k8s-openapi = { version = "0.26", default-features = false, features = ["latest"] }
kube = { version = "2", default-features = false, features = ["client", "runtime", "rustls-tls", "ring"] }
nix = { version = "0.30", default-features = false, features = ["user"] }
prost = "0.13"
reqwest = { version = "0.12", default-features = false, features = ["json"] }
serde = { version = "1", features = ["derive"] }
serde_json = "1"
tokio = { version = "1", features = ["full"] }
tokio-stream = { version = "0.1", features = ["net"] }
tonic = "0.13"
tracing = "0.1"
tracing-subscriber = { version = "0.3", features = ["env-filter"] }
