[package]
name = "metronion"
version = "0.1.0"
edition = "2021"
publish = false

[dependencies]
rand = "=0.8.8"
clap = { version = "=4.6.7", features = ["cargo"] }
fs_extra = "=1.3.0"
futures = "=0.3.34"
paris = { version = "=1.5.15", features = ["macros"] }
tokio = { version = "=1.53.2", features = ["rt-multi-thread", "macros"] }
