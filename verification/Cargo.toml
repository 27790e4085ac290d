[package]
name = "strict_linking"
version = "0.1.0"
edition = "2021"

[dependencies]
proc-macro2 = "=1.0.107"
syn = { version = "=1.0.109", features = ["full"] }
