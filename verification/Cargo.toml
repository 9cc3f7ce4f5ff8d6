[package]
name = "mongoc_rs"
version = "0.1.0"
edition = "2021"
publish = false

[dependencies]
futures = "0.3"
mongodb = "2"
structopt = "0.3"
termion = "2"
tokio = { version = "1", features = ["macros", "rt-multi-thread"] }
