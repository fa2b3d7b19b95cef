[package]
name = "metrique_schema"
version = "0.1.0"
edition = "2021"
publish = false

[dependencies]
Inflector = { version = "0.11", default-features = false }
darling = "0.21"
proc-macro2 = "1"
quote = "1"
syn = { version = "2", features = ["full"] }
