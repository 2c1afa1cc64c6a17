[package]
name = "incubator"
version = "0.1.0"
edition = "2021"
publish = false

[dependencies]
rand = "=0.7.3"
regex = "=1.13.1"
chrono = { version = "=0.4.19", features = ["serde"] }
im = "=15.1.0"
rust-argon2 = "=0.8.3"
sha3 = "=0.8.2"
base64 = "=0.12.3"
num_cpus = "=1.17.0"
rayon = "=1.12.0"
clap = "=2.34.0"
structopt = "=0.3.26"
config = "=0.10.1"
serde = { version = "=1.0.229", features = ["derive"] }
serde_json = "=1.0.154"
serde_yaml = "=0.8.26"
toml = "=0.5.11"
humantime-serde = "=1.1.1"
uuid = { version = "=0.8.2", features = ["v4", "serde"] }
dotenv = "=0.15.0"
syn = { version = "=1.0.109", features = ["full"] }
quote = "=1.0.47"
proc-macro2 = "=1.0.107"
actix-web = "=2.0.0"
actix-rt = "=1.1.1"
diesel = { version = "=1.4.8", features = ["postgres", "sqlite", "r2d2"] }
juniper = "=0.14.2"
tokio = { version = "=0.2.25", features = ["full"] }
reqwest = "=0.10.10"
futures = "=0.3.34"
