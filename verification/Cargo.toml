[package]
name = "wash_ctl"
version = "0.1.0"
edition = "2021"
publish = false

[dependencies]
structopt = "0.3"
spinners = "*"
wasmcloud-control-interface = "*"
tokio = { version = "1", features = ["rt-multi-thread", "macros"] }
