[package]
name = "isar_instance"
version = "0.1.0"
edition = "2021"
publish = false

[dependencies]
intmap = "2"
itertools = "0.10"
once_cell = "1"
thread_local = "1"
