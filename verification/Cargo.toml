[package]
name = "cpubars"
version = "0.1.0"
edition = "2021"
publish = false

[dependencies]
sysinfo = "0.30"
tokio = { version = "1", features = ["rt-multi-thread", "macros", "time"] }
