[package]
name = "solution_opener"
version = "0.1.0"
edition = "2021"
publish = false

[dependencies]
arboard = "*"
confy = "*"
fs_extra = "1"
inquire = "*"
open = "*"
serde = { version = "1", features = ["derive"] }
walkdir = "2"
