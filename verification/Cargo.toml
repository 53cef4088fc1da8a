[package]
name = "sync_primitives"
version = "0.1.0"
edition = "2021"
publish = false

[dependencies]
atomic-wait = "=1.1.0"
crossbeam-channel = "=0.5.17"
futures = "=0.3.34"
libc = "=0.2.190"
rand = "=0.9.5"

[dev-dependencies]
crossbeam-utils = "=0.8.23"
