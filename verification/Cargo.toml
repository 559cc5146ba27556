[package]
name = "flaq"
version = "0.1.0"
edition = "2021"
publish = false

[dependencies]
metaflac = "*"
itertools = "*"
clap = { version = "4", features = ["derive"] }
colored = "*"
thiserror = "*"
