[package]
name = "futures-glib"
version = "0.1.0"
edition = "2021"
publish = false

[dependencies]
futures = "0.1"
slab = "0.3"
libc = "0.2"
glib-sys = "0.3"
tokio-core = "0.1"
tokio-io = "0.1"
net2 = "0.2"
bytes = "0.4"
