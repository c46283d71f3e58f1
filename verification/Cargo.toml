[package]
name = "perf_events"
version = "0.1.0"
edition = "2021"
publish = false

[dependencies]
anyhow = "*"
bindgen = "*"
clap = { version = "*", features = ["derive"] }
colored = "*"
pager = "*"
textwrap = "*"
