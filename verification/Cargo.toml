[package]
name = "async_task"
version = "4.7.1"
edition = "2021"
publish = false

[dependencies]
portable-atomic = { version = "1", default-features = false }
