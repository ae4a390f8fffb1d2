[package]
name = "zubr_pipeline"
version = "0.1.0"
edition = "2021"
publish = false

[dependencies]
tokio = { version = "1", features = ["sync", "rt", "rt-multi-thread", "macros", "time"] }
crossbeam-queue = "0.3"
scc = "*"
rayon = "1"
log = "0.4"
chrono = "0.4"
num = "0.4"
strum = { version = "*", features = ["derive"] }
num_enum = "*"
async-trait = "*"
symphonia = "*"
rodio = { version = "*", default-features = false }
