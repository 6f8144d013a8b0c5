[package]
name = "optimizador_medios"
version = "0.1.0"
edition = "2021"
publish = false

[dependencies]
anyhow = "1"
ctrlc = "3"
indicatif = "0.17"
wait-timeout = "0.2"
walkdir = "2"
