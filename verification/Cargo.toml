[package]
name = "uvenv"
version = "3.4.0"
edition = "2021"
rust-version = "1.95"
publish = false

[dependencies]
anstyle = "=1.0.14"
anyhow = "=1.0.104"
chrono = "=0.4.45"
clap = { version = "=4.6.7", features = ["derive"] }
clap_complete = "=4.6.11"
configparser = "=3.3.0"
directories = "=6.0.0"
futures = "=0.3.34"
home = "=0.5.12"
itertools = "=0.14.0"
owo-colors = "=4.4.0"
regex = "=1.13.1"
reqwest = { version = "=0.12.28", default-features = false, features = ["rustls-tls"] }
rkyv = "=0.8.18"
rmp-serde = "=1.3.1"
scopeguard = "=1.2.0"
serde = { version = "=1.0.229", features = ["derive"] }
serde_json = "=1.0.154"
subprocess = "=0.2.15"
tempfile = "=3.27.0"
tokio = { version = "=1.54.1", features = ["full"] }
uv-pep440 = "=0.0.70"
uv-pep508 = "=0.0.70"
# Not called from any source file. uv-pep508 pulls in uv-macros, which takes
# any uv-version 0.12; this line holds it to the one that builds with the
# rust-version above.
uv-version = "=0.12.3"
