[package]
name = "article_store"
version = "0.1.0"
edition = "2021"
publish = false

[dependencies]
actix = "*"
blob-uuid = "*"
diesel = { version = "*", features = ["postgres", "r2d2", "uuid"] }
slug = "*"
uuid = { version = "*", features = ["v4"] }
