[package]
name = "temploy"
version = "0.1.0"
edition = "2021"
publish = false

[dependencies]
anyhow = "1"
clap = "2"
dialoguer = "*"
git2 = "*"
heck = "0.3"
md5 = "0.7"
serde = { version = "1", features = ["derive"] }
thiserror = "1"
walkdir = "2"
