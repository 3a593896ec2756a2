[package]
name = "rconcli"
version = "0.1.0"
edition = "2021"
publish = false

[dependencies]
anyhow = "*"
clap = { version = "*", features = ["derive"] }
config = { version = "*", default-features = false, features = ["ini"] }
directories = "*"
is-terminal = "*"
minecraft-client-rs = "*"
rpassword = "*"
rustyline = "*"
yansi = "*"
