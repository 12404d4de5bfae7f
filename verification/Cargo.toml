[package]
name = "local_feed"
version = "0.1.0"
edition = "2021"
publish = false

[dependencies]
clap = { version = "=4.6.7", features = ["cargo"] }
ctrlc = "=3.5.2"
gethostname = "=1.1.0"
if-addrs = "=0.15.0"
mdns-sd = "=0.8.1"
rouille = "=3.6.2"
