[package]
name = "shopify_gql"
version = "0.1.0"
edition = "2021"
publish = false

[dependencies]
reqwest = { version = "*", default-features = false }
dotenvy = "*"
thiserror = "*"
