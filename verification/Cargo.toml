[package]
name = "graphql_relay"
version = "0.1.0"
edition = "2021"
publish = false

[dependencies]
async-graphql = { version = "*", default-features = false }
async-trait = "*"
base64 = "0.13"
darling = "*"
quote = "*"
syn = "*"
uuid = "0.8"
