[package]
name = "incli"
version = "0.1.0"
edition = "2021"
publish = false

[dependencies]
czmq = "0.1.0"
docopt = "1.1"
serde = { version = "1.0", features = ["derive"] }
serde_json = "1.0"
ssh2 = "0.9"
time = "0.1"
