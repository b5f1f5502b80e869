[package]
name = "deno_server"
version = "0.1.0"
edition = "2021"
publish = false

[dependencies]
deno_core = "*"
deno_error = "*"
deno_unsync = "*"
scopeguard = "1"
thiserror = "*"
tokio = { version = "1", features = ["rt", "net", "io-util", "sync"] }
