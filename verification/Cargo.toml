[package]
name = "taiga_halo2"
version = "0.1.0"
edition = "2021"
publish = false

[dependencies]
pasta_curves = "*"
halo2_gadgets = "*"
ff = "*"
rand = "0.8"
borsh = { version = "1", features = ["derive"] }
serde = { version = "1", features = ["derive"] }
