[package]
name = "rosu_pp_verifier"
version = "0.1.0"
edition = "2021"
publish = false

[dependencies]
clap = { version = "4", features = ["derive"] }
csv = "1"
dotenvy = "0.15"
indicatif = "0.17"
memmap2 = "0.9"
rand = "0.8"
rkyv = "0.8"
rosu-mods = "*"
rosu-pp = "*"
serde = { version = "1", features = ["derive"] }
serde_json = { version = "1", features = ["arbitrary_precision"] }
