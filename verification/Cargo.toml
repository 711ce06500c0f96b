[package]
name = "sonarqube_setup"
version = "0.1.0"
edition = "2021"
publish = false

[dependencies]
reqwest = { version = "0.11", default-features = false, features = ["blocking", "json"] }
envsubst = "0.2"
serde = { version = "1", features = ["derive"] }
serde_derive = "1"
serde_yaml = "0.8"
structopt = "0.3"
clap = "2"
clap-verbosity-flag = "0.3"
log = "0.4"
