[package]
name = "rust_sharp"
version = "0.1.0"
edition = "2021"
publish = false

[dependencies]
lalrpop-util = { version = "0.19", features = ["lexer"] }
