[package]
name = "compresso"
version = "0.1.0"
edition = "2021"
publish = false

[dependencies]
clap = { version = "*", features = ["derive"] }
colored = "*"
crossbeam-channel = "*"
ctrlc = "*"
dialoguer = "*"
indicatif = "*"
infer = "*"
nanoid = "*"
once_cell = "*"
regex = "*"
serde = { version = "*", features = ["derive"] }
serde_json = "*"
shared_child = "*"
which = "*"
