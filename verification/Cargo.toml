[package]
name = "cloud_profiler_rust"
version = "0.1.0"
edition = "2021"
publish = false

[dependencies]
rand = "0.8"
flate2 = "1"
serde = { version = "1", features = ["derive"] }
thiserror = "1"
tokio = { version = "1", features = ["rt", "time"] }
google-cloudprofiler2 = "*"
google-cloud-auth = "*"
google-cloud-metadata = "*"
google-cloud-token = "*"
hyper-rustls = "0.24"
pprof = { version = "*", features = ["protobuf-codec"] }
