[package]
name = "async_fuser"
version = "0.1.0"
edition = "2021"
publish = false

[dependencies]
async-scoped = { version = "*", features = ["use-tokio"] }
async-trait = "0.1"
futures = "0.3"
libc = "0.2"
log = "0.4"
nix = { version = "*", features = ["fs", "ioctl", "mount", "poll", "process", "socket", "uio", "user"] }
regex = "1"
rusty_pool = "*"
tokio = { version = "1", features = ["full"] }
tokio-util = { version = "0.7", features = ["full"] }
xutex = "*"
