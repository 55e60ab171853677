[package]
name = "hugoenv"
version = "0.1.0"
edition = "2021"
publish = false

[dependencies]
semver = "=1.0.28"
reqwest = { version = "=0.13.5", default-features = false, features = ["blocking", "native-tls"] }
flate2 = "=1.1.10"
tar = "=0.4.46"
clap = { version = "=4.6.7", features = ["derive"] }
anyhow = "=1.0.104"
shellexpand = "=3.1.2"
