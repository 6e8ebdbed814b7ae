[package]
name = "igor"
version = "0.1.0"
edition = "2021"
publish = false

[dependencies]
anyhow = "1"
clap = { version = "3.2", features = ["derive"] }
directories = "4"
read_input = "*"
serde = { version = "1", features = ["derive"] }
serde_yaml = "*"
symlink = "*"
