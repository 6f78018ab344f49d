[package]
name = "bitbucket_cli"
version = "0.1.0"
edition = "2021"
publish = false

[dependencies]
regex = "=1.13.1"
anyhow = "=1.0.104"
clap = { version = "=4.6.7", features = ["derive", "env"] }
clap_complete = "=4.6.11"
console = "=0.16.6"
serde = { version = "=1.0.229", features = ["derive"] }
serde_json = "=1.0.154"
serde_yaml = "=0.9.34"
toml = "=1.1.8"
directories = "=6.0.0"
git2 = { version = "=0.21.0", default-features = false }
webbrowser = "=1.2.6"
chrono = "=0.4.45"
reqwest = { version = "0.12", default-features = false, features = ["blocking", "json", "rustls-tls"] }
dialoguer = "0.11"
