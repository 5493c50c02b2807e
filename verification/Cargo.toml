[package]
name = "transcode_planner"
version = "0.1.0"
edition = "2021"
publish = false

[dependencies]
native-dialog = "*"
