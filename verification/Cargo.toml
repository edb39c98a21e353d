[package]
name = "async_metronome"
version = "0.3.0"
edition = "2021"
publish = false

[dependencies]
async-task = "4"
flume = "0.10"
futures = "0.3"
derive_builder = "0.12"
pin-project = "1"
threadpool = "1.8"
