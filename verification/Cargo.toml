[package]
name = "nx"
version = "0.1.0"
edition = "2021"
publish = false

[dependencies]
regex = "1"
clap = { version = "4", features = ["derive", "env"] }
clap-verbosity-flag = "*"
log = "0.4"
color-eyre = "0.6"
yansi = "1"
indicatif = "0.17"
which = "*"
nix = { version = "0.29", features = ["user", "hostname"] }
dirs = "*"
chrono = "0.4"
walkdir = "2"
serde_json = "1"
reqwest = { version = "0.12", default-features = false, features = ["json", "rustls-tls"] }
tokio = { version = "1", features = ["macros", "rt-multi-thread"] }
tracing = "0.1"
tracing-subscriber = { version = "0.3", features = ["env-filter", "fmt"] }
