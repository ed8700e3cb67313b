[package]
name = "sdkman_core"
version = "0.1.0"
edition = "2021"
publish = false

[dependencies]
clap = { version = "*", features = ["derive"] }
colored = "*"
directories = "*"
reqwest = { version = "*", default-features = false, features = ["blocking", "rustls-tls"] }
symlink = "*"
