[package]
name = "subtitle_processor"
version = "0.1.0"
edition = "2021"
publish = false

[dependencies]
chardetng = "0.1"
encoding_rs = "0.8"
clap = { version = "4", features = ["derive"] }
glob = "0.3"
rayon = "1"
serde = { version = "1", features = ["derive"] }
serde_json = "1"
