[package]
name = "s3multiframesink"
version = "0.1.0"
edition = "2021"
publish = false

[dependencies]
rand = "0.7"
futures-retry = "0.5"
tokio = { version = "0.2", features = ["rt-threaded", "time", "io-driver"] }
rusoto_core = "0.45"
rusoto_s3 = "0.45"
once_cell = "1"
glib = "0.10"
gstreamer = "0.16"
gstreamer-base = "0.16"
gstreamer-video = "0.16"
