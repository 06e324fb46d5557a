[package]
name = "netpaint"
version = "0.1.0"
edition = "2021"
publish = false

[dependencies]
bstr = "=1.13.1"
bun_analytics = "=0.2.1"
bun_collections = "=0.2.2"
bun_core = "=0.2.5"
bun_io = "=0.2.3"
bun_threading = "=0.2.1"
crossbeam-channel = "=0.5.17"
dpi = "=0.1.2"
euclid = "=0.22.14"
image = { version = "=0.25.10", default-features = false }
ipc-channel = "=0.23.1"
log = "=0.4.35"
webrender = { version = "=0.70.1", default-features = false }
webrender_api = "=0.70.0"
