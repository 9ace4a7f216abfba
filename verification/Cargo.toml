[package]
name = "cromwell"
version = "0.1.0"
edition = "2021"
publish = false

[dependencies]
clap = "2"
dirs = "5"
env_logger = "0.11"
flate2 = "1"
getopts = "0.2"
log = "0.4"
nix = { version = "0.29", features = ["user", "process", "sched", "mount", "hostname", "fs"] }
prettytable-rs = "0.10"
rand = "0.8"
reqwest = { version = "0.12", default-features = false, features = ["blocking", "rustls-tls"] }
serde = { version = "1", features = ["derive"] }
serde_derive = "1"
serde_json = "1"
tar = "0.4"
