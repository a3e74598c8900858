[package]
name = "labo"
version = "0.1.0"
edition = "2021"
publish = false

[dependencies]
futures = "=0.1.31"
telegram-bot-fork = "=0.7.8"
tokio = "=0.1.22"
