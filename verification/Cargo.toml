[package]
name = "leaf"
version = "0.1.0"
edition = "2021"
publish = false

[dependencies]
smoltcp = "=0.8.2"
bytes = "=1.12.1"
memchr = "=2.8.3"
tokio = { version = "=1.54.1", features = ["full"] }
futures = "=0.3.34"
log = "=0.4.35"
rand = "=0.8.8"
flume = "=0.10.14"
anyhow = "=1.0.104"
thiserror = "=1.0.69"
libc = "=0.2.191"
widestring = "=0.5.1"
notify = "6"
