[package]
name = "kdniao_batch"
version = "0.1.0"
edition = "2021"
publish = false

[dependencies]
base64 = "0.13"
calamine = "0.22"
chrono = "0.4"
clap = "3"
hyper = { version = "0.14", features = ["full"] }
md5 = "0.7"
serde = { version = "1", features = ["derive"] }
serde_json = "1"
serde_urlencoded = "0.7"
simple_excel_writer = "0.2"
tokio = { version = "1", features = ["macros", "rt-multi-thread"] }
toml = "0.5"
