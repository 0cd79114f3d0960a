[package]
name = "songrec"
version = "0.1.0"
edition = "2021"
publish = false

[dependencies]
async-channel = "=2.5.0"
chrono = "=0.4.45"
clap = { version = "=4.6.7", features = ["cargo"] }
cpal = "*"
csv = "=1.4.0"
gettext-rs = "=0.7.7"
glib = "=0.22.10"
ksni = "*"
log = "=0.4.34"
pulsectl-rs = "=0.3.2"
rand = "=0.8.8"
serde = { version = "=1.0.229", features = ["derive"] }
serde_json = "=1.0.154"
soup3 = "=0.9.0"
toml = "=0.8.23"
uuid = { version = "=0.8.2", features = ["v4"] }
