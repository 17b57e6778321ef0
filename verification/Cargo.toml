[package]
name = "cameleon"
version = "0.1.0"
edition = "2021"
publish = false

[dependencies]
roxmltree = "=0.21.2"
nusb = { version = "=0.2.9", features = ["tokio"] }
rusb = "=0.9.4"
semver = "=1.0.28"
thiserror = "=2.0.21"
tokio = { version = "=1.54.1", features = ["io-util", "rt", "macros"] }
futures-lite = "=2.6.1"
pin-project-lite = "=0.2.17"
tracing = "=0.1.44"
log = "=0.4.35"
byteorder = "=1.5.0"
auto_impl = "=1.4.0"
