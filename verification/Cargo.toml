[package]
name = "datapipe"
version = "0.1.0"
edition = "2021"
publish = false

[dependencies]
regex = "=1.13.1"
chrono = "=0.4.45"
postgres = { version = "=0.19.14", features = ["with-chrono-0_4"] }
structopt = "=0.3.26"
