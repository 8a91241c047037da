[package]
name = "webcam-sharedtexture-core"
version = "0.1.0"
edition = "2021"
publish = false

[dependencies]
clap = { version = "=4.6.7", features = ["derive"] }
ctrlc = "=3.5.2"
nokhwa = { version = "=0.10.11", features = ["input-native"] }
png = "0.18"
thiserror = "=2.0.21"
