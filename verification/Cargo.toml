[package]
name = "snake_game"
version = "0.1.0"
edition = "2021"
publish = false

[dependencies]
futures = "0.3"
futures-core = "0.3"
http = "0.2"
prost = "0.9"
structopt = "0.3"
termion = "1"
tokio = { version = "1", features = ["full"] }
tokio-stream = "0.1"
tonic = "0.6"
tracing = "0.1"
tracing-subscriber = "0.3"
tui = { version = "0.16", default-features = false, features = ["termion"] }
