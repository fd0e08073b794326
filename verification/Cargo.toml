[package]
name = "realworld"
version = "0.1.0"
edition = "2021"
publish = false

[dependencies]
diesel = { version = "=2.3.14", default-features = false, features = ["postgres", "uuid"] }
uuid = "=1.29.0"
