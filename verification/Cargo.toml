[package]
name = "halo2_inspect"
version = "0.1.0"
edition = "2021"
publish = false

[dependencies]
halo2-axiom = "=0.5.3"
rand_chacha = "=0.3.1"
serde = { version = "=1.0.229", features = ["derive"] }
serde_json = "=1.0.151"
tabled = "=0.22.0"
