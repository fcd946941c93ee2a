[package]
name = "crusty_keys"
version = "0.1.0"
edition = "2021"
publish = false

[dependencies]
regex = "*"
clap = { version = "*", features = ["derive"] }
i3ipc = "*"
mlua = { version = "*", features = ["lua54", "vendored"] }
x11-dl = "*"
