[package]
name = "halo2_minimal"
version = "0.1.0"
edition = "2021"
publish = false

[dependencies]
halo2_proofs = "0.3"
pasta_curves = "0.5"
ff = "0.13"
rand_core = { version = "0.6", features = ["getrandom"] }
rand = "0.8"
serde = { version = "1", features = ["derive"] }
serde_json = "1"
tokio = { version = "1", features = ["macros", "rt-multi-thread", "sync"] }
warp = "0.3"
bytes = "1"
