[package]
name = "usdt_reader"
version = "0.1.0"
edition = "2021"

[dependencies]
goblin = "=0.10.7"
