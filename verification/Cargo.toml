[package]
name = "file_persist"
version = "0.1.0"
edition = "2021"

[dependencies]
serde_json = "*"
toml = "*"
time = "*"
sha2 = "*"
directories = "*"
