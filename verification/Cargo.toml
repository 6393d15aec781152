[package]
name = "tree_migration"
version = "0.1.0"
edition = "2021"
publish = false

[dependencies]
chrono = "0.4"
image = "0.24"
imageproc = "0.23"
rusttype = "0.9"
confy = "*"
serde = { version = "*", features = ["derive"] }
async-std = "*"
