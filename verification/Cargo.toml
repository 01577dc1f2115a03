[package]
name = "constellation"
version = "0.1.0"
edition = "2021"
publish = false

[dependencies]
anyhow = "=1.0.104"
thiserror = "=1.0.69"
uuid = { version = "=1.29.1", features = ["v4", "serde"] }
serde = { version = "=1.0.229", features = ["derive"] }
serde_json = "=1.0.154"
num_cpus = "=1.17.0"
tracing = "=0.1.44"
tracing-subscriber = "=0.3.23"
rand = "=0.8.8"
ash = "=0.37.3"
nalgebra = { version = "=0.32.6", features = ["serde-serialize"] }
x11 = { version = "=2.21.0", features = ["xlib"] }
nokhwa = { version = "=0.10.11", default-features = false }
tokio = { version = "=1.54.1", features = ["full"] }
axum = { version = "=0.7.9", features = ["ws"] }
tower-http = { version = "=0.5.2", features = ["cors", "fs"] }
futures = "=0.3.34"
