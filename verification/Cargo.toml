[package]
name = "timedumper"
version = "0.1.0"
edition = "2021"
publish = false

[dependencies]
clap = "2"
httpdate = "1"
mosquitto-client = "*"
serde_yaml = "0.8"
